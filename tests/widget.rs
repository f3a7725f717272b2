use tooltip::geometry::{Point, Rectangle, Size};
use tooltip::hover::{HoverState, Redraw, Schedule};
use tooltip::placement::Position;
use tooltip::widget::{compose_overlays, text_color, Tooltip, DEFAULT_DELAY, DEFAULT_PADDING};

type Plain = Tooltip<&'static str, u32>;

#[test]
fn new_uses_defaults() {
    let t: Plain = Tooltip::new("source", "hint", Position::Bottom);
    assert_eq!(t.content, "source");
    assert_eq!(t.tooltip, "hint");
    assert_eq!(t.position, Position::Bottom);
    assert_eq!(t.gap, 0);
    assert_eq!(t.padding, 5);
    assert_eq!(DEFAULT_PADDING, 5);
    assert_eq!(t.delay, 2000);
    assert_eq!(DEFAULT_DELAY, 2000);
    assert!(t.snap_within_viewport);
    assert_eq!(t.class, None);
}

#[test]
fn builders_set_one_field_each() {
    let t: Plain = Tooltip::new("source", "hint", Position::Left)
        .gap(7)
        .padding(2)
        .delay(0)
        .snap_within_viewport(false);
    assert_eq!((t.gap, t.padding, t.delay, t.snap_within_viewport), (7, 2, 0, false));
    assert_eq!(t.position, Position::Left);
    let styled = t.style(11);
    assert_eq!(styled.class, Some(11));
    let classed = styled.class(12);
    assert_eq!(classed.class, Some(12));
    assert_eq!(classed.gap, 7);
}

#[test]
fn update_drives_hover_state() {
    let t: Plain = Tooltip::new("source", "hint", Position::Top);
    let mut state = HoverState::Idle;
    let s = t.update(&mut state, Some(Point::new(5, 5)), 100);
    assert_eq!(s, Schedule { invalidate_layout: true, redraw: Redraw::At(2100) });
    assert_eq!(state, HoverState::Hovering { cursor_position: Point::new(5, 5), since: 100 });
    let s = t.update(&mut state, None, 200);
    assert_eq!(s, Schedule { invalidate_layout: true, redraw: Redraw::Now });
    assert_eq!(state, HoverState::Idle);
}

#[test]
fn overlay_appears_only_after_delay() {
    let t: Plain = Tooltip::new("source", "hint", Position::Top);
    let mut state = HoverState::Idle;
    let origin = Point::new(10, 5);
    let bounds = Rectangle::new(10, 5, 50, 20);
    assert!(t.overlay(&state, 5000, origin, bounds).is_none());
    t.update(&mut state, Some(Point::new(12, 8)), 0);
    assert!(t.overlay(&state, 2000, origin, bounds).is_none());
    let plan = t.overlay(&state, 2001, origin, bounds).unwrap();
    assert_eq!(plan.cursor_position, Point::new(12, 8));
    let placed = plan.layout(Size::new(800, 600), Size::new(200, 30));
    assert_eq!(placed.bounds, Rectangle::new(0, 0, 210, 40));
    assert_eq!(placed.content_offset, Point::new(5, 5));
}

#[test]
fn follow_cursor_keeps_constant_offset() {
    let t: Plain = Tooltip::new("source", "hint", Position::FollowCursor).delay(100);
    let mut state = HoverState::Idle;
    let origin = Point::new(0, 0);
    let bounds = Rectangle::new(0, 0, 50, 20);
    let measured = Size::new(40, 10);
    t.update(&mut state, Some(Point::new(1, 1)), 0);
    let s = t.update(&mut state, Some(Point::new(10, 20)), 200);
    assert_eq!(s.redraw, Redraw::Now);
    let first = t.overlay(&state, 200, origin, bounds).unwrap().layout(Size::new(800, 600), measured);
    let s = t.update(&mut state, Some(Point::new(30, 50)), 300);
    assert_eq!(s.redraw, Redraw::Now);
    let second = t.overlay(&state, 300, origin, bounds).unwrap().layout(Size::new(800, 600), measured);
    assert_eq!(first.bounds, Rectangle::new(5, 5, 50, 20));
    assert_eq!(second.bounds, Rectangle::new(25, 35, 50, 20));
    assert_ne!(first.bounds, second.bounds);
    assert_eq!(first.bounds.x - 10, second.bounds.x - 30);
    assert_eq!(first.bounds.y - 20, second.bounds.y - 50);
}

#[test]
fn measure_limits_shrink_viewport_by_padding() {
    let t: Plain = Tooltip::new("source", "hint", Position::Top).delay(0);
    let mut state = HoverState::Idle;
    t.update(&mut state, Some(Point::new(1, 1)), 0);
    let plan = t.overlay(&state, 1, Point::new(0, 0), Rectangle::new(0, 0, 5, 5)).unwrap();
    assert_eq!(plan.measure_limits(Size::new(800, 600)), Some(Size::new(790, 590)));
    let wide = t.padding(500).overlay(&state, 1, Point::new(0, 0), Rectangle::new(0, 0, 5, 5)).unwrap();
    assert_eq!(wide.measure_limits(Size::new(800, 600)), Some(Size::new(0, 0)));
}

#[test]
fn measure_limits_unbounded_without_snap() {
    let t: Plain = Tooltip::new("source", "hint", Position::Top).delay(0).snap_within_viewport(false);
    let mut state = HoverState::Idle;
    t.update(&mut state, Some(Point::new(1, 1)), 0);
    let plan = t.overlay(&state, 1, Point::new(0, 0), Rectangle::new(0, 0, 5, 5)).unwrap();
    assert_eq!(plan.measure_limits(Size::new(800, 600)), None);
}

#[test]
fn overlays_compose_content_first() {
    assert_eq!(compose_overlays(Some(1), Some(2)), Some(vec![1, 2]));
    assert_eq!(compose_overlays(None, Some(2)), Some(vec![2]));
    assert_eq!(compose_overlays(Some(1), None), Some(vec![1]));
    assert_eq!(compose_overlays::<u8>(None, None), None);
}

#[test]
fn text_color_prefers_style() {
    assert_eq!(text_color(Some(3), 7), 3);
    assert_eq!(text_color(None, 7), 7);
}
