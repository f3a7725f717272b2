use tooltip::geometry::Point;
use tooltip::hover::{hint_shown, track_hover, HoverState, Redraw, Schedule};

fn hovering(x: i64, y: i64, since: u64) -> HoverState {
    HoverState::Hovering { cursor_position: Point::new(x, y), since }
}

#[test]
fn entering_schedules_wake_up_after_delay() {
    let (s, d) = track_hover(HoverState::Idle, Some(Point::new(3, 4)), 1000, 2000, false);
    assert_eq!(s, hovering(3, 4, 1000));
    assert_eq!(d, Schedule { invalidate_layout: true, redraw: Redraw::At(3000) });
}

#[test]
fn waiting_rearms_the_same_deadline() {
    let (s, d) = track_hover(hovering(3, 4, 1000), Some(Point::new(5, 6)), 1500, 2000, false);
    assert_eq!(s, hovering(5, 6, 1000));
    assert_eq!(d, Schedule { invalidate_layout: false, redraw: Redraw::At(3000) });
}

#[test]
fn leaving_redraws_now() {
    let (s, d) = track_hover(hovering(3, 4, 1000), None, 1500, 2000, false);
    assert_eq!(s, HoverState::Idle);
    assert_eq!(d, Schedule { invalidate_layout: true, redraw: Redraw::Now });
}

#[test]
fn shown_and_following_redraws_now() {
    let (s, d) = track_hover(hovering(3, 4, 1000), Some(Point::new(9, 9)), 3500, 2000, true);
    assert_eq!(s, hovering(9, 9, 1000));
    assert_eq!(d, Schedule { invalidate_layout: false, redraw: Redraw::Now });
}

#[test]
fn shown_and_still_does_nothing() {
    let (s, d) = track_hover(hovering(3, 4, 1000), Some(Point::new(9, 9)), 3500, 2000, false);
    assert_eq!(s, hovering(3, 4, 1000));
    assert_eq!(d, Schedule { invalidate_layout: false, redraw: Redraw::Skip });
}

#[test]
fn idle_without_pointer_does_nothing() {
    let (s, d) = track_hover(HoverState::Idle, None, 1500, 2000, true);
    assert_eq!(s, HoverState::Idle);
    assert_eq!(d, Schedule { invalidate_layout: false, redraw: Redraw::Skip });
}

#[test]
fn delay_reached_exactly_counts_as_elapsed() {
    let (s, d) = track_hover(hovering(3, 4, 1000), Some(Point::new(9, 9)), 3000, 2000, false);
    assert_eq!(s, hovering(3, 4, 1000));
    assert_eq!(d.redraw, Redraw::Skip);
}

#[test]
fn clock_behind_start_counts_as_no_time() {
    let (s, d) = track_hover(hovering(3, 4, 1000), Some(Point::new(9, 9)), 900, 2000, false);
    assert_eq!(s, hovering(9, 9, 1000));
    assert_eq!(d.redraw, Redraw::At(3000));
}

#[test]
fn hint_hidden_until_delay_then_shown() {
    let (mut s, _) = track_hover(HoverState::Idle, Some(Point::new(1, 1)), 1000, 2000, false);
    for t in [1000u64, 1500, 2999, 3000] {
        let (next, _) = track_hover(s, Some(Point::new(2, 2)), t, 2000, false);
        s = next;
        assert!(!hint_shown(&s, t, 2000));
    }
    for t in [3001u64, 4000, 10000] {
        let (next, _) = track_hover(s, Some(Point::new(2, 2)), t, 2000, false);
        s = next;
        assert!(hint_shown(&s, t, 2000));
    }
}

#[test]
fn zero_delay_shows_after_first_instant() {
    let (s, _) = track_hover(HoverState::Idle, Some(Point::new(1, 1)), 1000, 0, false);
    assert!(!hint_shown(&s, 1000, 0));
    assert!(hint_shown(&s, 1001, 0));
}

#[test]
fn leaving_restarts_the_delay() {
    let (s, _) = track_hover(HoverState::Idle, Some(Point::new(1, 1)), 1000, 2000, false);
    let (s, _) = track_hover(s, None, 2000, 2000, false);
    let (s, _) = track_hover(s, Some(Point::new(1, 1)), 2001, 2000, false);
    assert!(!hint_shown(&s, 3001, 2000));
    assert!(!hint_shown(&s, 4001, 2000));
    assert!(hint_shown(&s, 4002, 2000));
}

#[test]
fn idle_never_shows() {
    for delay in [0u64, 1, 2000] {
        for now in [0u64, 1000, u64::MAX] {
            assert!(!hint_shown(&HoverState::Idle, now, delay));
        }
    }
}

#[test]
fn new_hover_state_is_idle() {
    assert_eq!(HoverState::default(), HoverState::Idle);
}
