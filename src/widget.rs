//! The tooltip itself: its configuration, how it feeds pointer samples to the hover
//! state machine, and the overlay it hands to the host while the hint is shown.
use vstd::prelude::*;
use crate::geometry::{Point, Rectangle, Size, fits_i64};
use crate::hover::{
    HoverState, Schedule, deadline_fits, elapsed, hint_shown, next_state, schedule_of, shows_hint,
    track_hover,
};
use crate::placement::{Frame, Position, frame_fits, frame_of, inside, place, placement, unclamped_frame};

verus! {

/// The padding around the hint's content unless another is set.
pub const DEFAULT_PADDING: i64 = 5;

/// How long, in milliseconds, the pointer must rest before the hint shows unless
/// another delay is set.
pub const DEFAULT_DELAY: u64 = 2000;

/// A source element with a hint that shows once the pointer has rested over it for
/// longer than `delay`.
///
/// `E` is the host's element type and `C` its style class; neither is read here.
pub struct Tooltip<E, C> {
    /// The element the hint belongs to.
    pub content: E,
    /// The hint's content.
    pub tooltip: E,
    /// Where the hint appears.
    pub position: Position,
    /// Space between the source and the hint's box.
    pub gap: i64,
    /// Space between the hint's box and its content.
    pub padding: i64,
    /// Whether the hint is shifted to stay inside the viewport.
    pub snap_within_viewport: bool,
    /// Milliseconds the pointer must rest before the hint shows.
    pub delay: u64,
    /// The style of the hint's box; `None` is the theme's default.
    pub class: Option<C>,
}

/// Everything the hint's overlay needs to size and place itself.
#[derive(Clone, Copy, Debug, PartialEq, Eq, Structural)]
pub struct OverlayPlan {
    /// The source's corner in the overlay's coordinate space.
    pub source_origin: Point,
    /// The pointer position recorded by the hover.
    pub cursor_position: Point,
    /// The source's bounds in its own layout space.
    pub source_bounds: Rectangle,
    /// Whether the hint is shifted to stay inside the viewport.
    pub snap_within_viewport: bool,
    /// Where the hint appears.
    pub position: Position,
    /// Space between the source and the hint's box.
    pub gap: i64,
    /// Space between the hint's box and its content.
    pub padding: i64,
}

/// The hint's box, and where its content sits inside it.
#[derive(Clone, Copy, Debug, PartialEq, Eq, Structural)]
pub struct Placement {
    /// The box, in the overlay's coordinate space.
    pub bounds: Rectangle,
    /// The content's corner relative to the box's corner.
    pub content_offset: Point,
}

/// The viewport of an overlay: a rectangle of the given size at the origin.
pub open spec fn viewport_of(size: Size) -> Rectangle {
    Rectangle { x: 0, y: 0, width: size.width, height: size.height }
}

/// A length less twice the padding, never below zero.
pub open spec fn shrunk(len: int, padding: int) -> int {
    if len - 2 * padding > 0 {
        len - 2 * padding
    } else {
        0
    }
}

/// The items of an optional value, in order.
pub open spec fn items_of<T>(o: Option<T>) -> Seq<T> {
    match o {
        Some(v) => seq![v],
        None => seq![],
    }
}

impl<E, C> Tooltip<E, C> {
    /// Whether the hint moves with the pointer once shown.
    pub open spec fn follows_cursor(&self) -> bool {
        self.position == Position::FollowCursor
    }

    /// Creates a tooltip that shows `tooltip` over `content` at `position`, with no
    /// gap, the default padding and delay, snapping on and the default style.
    pub fn new(content: E, tooltip: E, position: Position) -> (r: Tooltip<E, C>)
        ensures
            r.content == content,
            r.tooltip == tooltip,
            r.position == position,
            r.gap == 0,
            r.padding == DEFAULT_PADDING,
            r.snap_within_viewport,
            r.delay == DEFAULT_DELAY,
            r.class is None,
    {
        Tooltip {
            content,
            tooltip,
            position,
            gap: 0,
            padding: DEFAULT_PADDING,
            snap_within_viewport: true,
            delay: DEFAULT_DELAY,
            class: None,
        }
    }

    /// Sets the gap between the source and the hint's box.
    pub fn gap(self, gap: i64) -> (r: Tooltip<E, C>)
        ensures
            r == (Tooltip { gap, ..self }),
    {
        Tooltip { gap, ..self }
    }

    /// Sets the padding between the hint's box and its content.
    pub fn padding(self, padding: i64) -> (r: Tooltip<E, C>)
        ensures
            r == (Tooltip { padding, ..self }),
    {
        Tooltip { padding, ..self }
    }

    /// Sets how many milliseconds the pointer must rest before the hint shows; zero
    /// shows it on the first pass after the pointer arrives.
    pub fn delay(self, delay: u64) -> (r: Tooltip<E, C>)
        ensures
            r == (Tooltip { delay, ..self }),
    {
        Tooltip { delay, ..self }
    }

    /// Sets whether the hint is shifted to stay inside the viewport.
    pub fn snap_within_viewport(self, snap: bool) -> (r: Tooltip<E, C>)
        ensures
            r == (Tooltip { snap_within_viewport: snap, ..self }),
    {
        Tooltip { snap_within_viewport: snap, ..self }
    }

    /// Sets the style of the hint's box, given as the host's style value.
    pub fn style(self, style: C) -> (r: Tooltip<E, C>)
        ensures
            r == (Tooltip { class: Some(style), ..self }),
    {
        Tooltip { class: Some(style), ..self }
    }

    /// Sets the style class of the hint's box.
    pub fn class(self, class: C) -> (r: Tooltip<E, C>)
        ensures
            r == (Tooltip { class: Some(class), ..self }),
    {
        Tooltip { class: Some(class), ..self }
    }

    /// Feeds a pointer sample taken at `now` to the hover state, and says what the
    /// host should do next. `pointer` is the pointer's position if it is over the
    /// source.
    pub fn update(&self, state: &mut HoverState, pointer: Option<Point>, now: u64) -> (r: Schedule)
        requires
            deadline_fits(*old(state), pointer, now, self.delay),
        ensures
            *final(state) == next_state(*old(state), pointer, now, self.delay, self.follows_cursor()),
            r == schedule_of(*old(state), pointer, now, self.delay, self.follows_cursor()),
    {
        let follows = match self.position {
            Position::FollowCursor => true,
            _ => false,
        };
        let (next, schedule) = track_hover(*state, pointer, now, self.delay, follows);
        *state = next;
        schedule
    }

    /// The hint's overlay at `now`, present exactly when the pointer has rested over
    /// the source for strictly longer than the delay. `source_origin` is the source's
    /// corner in the overlay's space and `source_bounds` its bounds in its own layout.
    pub fn overlay(
        &self,
        state: &HoverState,
        now: u64,
        source_origin: Point,
        source_bounds: Rectangle,
    ) -> (r: Option<OverlayPlan>)
        ensures
            r is Some <==> shows_hint(*state, now, self.delay),
            r matches Some(plan) ==> {
                &&& state matches HoverState::Hovering { cursor_position, .. }
                    && plan.cursor_position == cursor_position
                &&& plan.source_origin == source_origin
                &&& plan.source_bounds == source_bounds
                &&& plan.snap_within_viewport == self.snap_within_viewport
                &&& plan.position == self.position
                &&& plan.gap == self.gap
                &&& plan.padding == self.padding
            },
    {
        if hint_shown(state, now, self.delay) {
            match state {
                HoverState::Hovering { cursor_position, .. } => Some(
                    OverlayPlan {
                        source_origin,
                        cursor_position: *cursor_position,
                        source_bounds,
                        snap_within_viewport: self.snap_within_viewport,
                        position: self.position,
                        gap: self.gap,
                        padding: self.padding,
                    },
                ),
                HoverState::Idle => None,
            }
        } else {
            None
        }
    }
}

impl OverlayPlan {
    /// The largest size the hint's content may take: the viewport less the padding
    /// on every side when snapping, never below zero, and no bound (`None`) otherwise.
    pub fn measure_limits(&self, viewport: Size) -> (r: Option<Size>)
        requires
            self.snap_within_viewport ==> fits_i64(viewport.width - 2 * self.padding)
                && fits_i64(viewport.height - 2 * self.padding),
        ensures
            r is Some <==> self.snap_within_viewport,
            r matches Some(max) ==> max.width == shrunk(viewport.width as int, self.padding as int)
                && max.height == shrunk(viewport.height as int, self.padding as int),
    {
        if self.snap_within_viewport {
            let p = self.padding as i128;
            let w = viewport.width as i128 - 2 * p;
            let h = viewport.height as i128 - 2 * p;
            Some(
                Size {
                    width: if w > 0 { w as i64 } else { 0 },
                    height: if h > 0 { h as i64 } else { 0 },
                },
            )
        } else {
            None
        }
    }

    /// The model of the box placed around content of size `measured` in a viewport
    /// of the given size.
    pub open spec fn frame(&self, viewport: Size, measured: Size) -> Frame {
        placement(
            self.position,
            self.source_origin,
            self.source_bounds,
            self.cursor_position,
            measured,
            self.gap as int,
            self.padding as int,
            viewport_of(viewport),
            self.snap_within_viewport,
        )
    }

    /// Places the hint's box around content of size `measured` in a viewport of the
    /// given size at the origin; the content sits `padding` in from the box's corner.
    pub fn layout(&self, viewport: Size, measured: Size) -> (r: Placement)
        requires
            frame_fits(self.frame(viewport, measured)),
        ensures
            frame_of(r.bounds) == self.frame(viewport, measured),
            r.bounds.width == measured.width + 2 * self.padding,
            r.bounds.height == measured.height + 2 * self.padding,
            r.content_offset == (Point { x: self.padding, y: self.padding }),
    {
        let bounds = place(
            self.position,
            self.source_origin,
            self.source_bounds,
            self.cursor_position,
            measured,
            self.gap,
            self.padding,
            Rectangle::with_size(viewport),
            self.snap_within_viewport,
        );
        Placement { bounds, content_offset: Point { x: self.padding, y: self.padding } }
    }
}

/// Groups the overlay of the content and that of the hint, the content's first so
/// that the hint is drawn on top; `None` when neither is present.
pub fn compose_overlays<T>(content: Option<T>, tooltip: Option<T>) -> (r: Option<Vec<T>>)
    ensures
        r is None <==> content is None && tooltip is None,
        r matches Some(group) ==> group@ == items_of(content) + items_of(tooltip),
{
    if content.is_none() && tooltip.is_none() {
        return None;
    }
    let mut group: Vec<T> = Vec::new();
    match content {
        Some(c) => group.push(c),
        None => {},
    }
    match tooltip {
        Some(t) => group.push(t),
        None => {},
    }
    assert(group@ =~= items_of(content) + items_of(tooltip));
    Some(group)
}

/// The text color of the hint's content: the style's own if it has one, else the
/// one inherited from the enclosing context.
pub fn text_color<K>(style_color: Option<K>, inherited: K) -> (r: K)
    ensures
        r == (match style_color {
            Some(c) => c,
            None => inherited,
        }),
{
    match style_color {
        Some(c) => c,
        None => inherited,
    }
}

/// A hint that follows the pointer tracks it: once the delay has passed, two samples
/// at distinct pointer positions give two distinct boxes, each at the same offset from
/// its pointer position, wherever snapping does not have to shift either box.
pub proof fn lemma_follow_cursor_tracks(
    hovered_at: Point,
    since: u64,
    delay: u64,
    p1: Point,
    t1: u64,
    p2: Point,
    t2: u64,
    origin: Point,
    source: Rectangle,
    measured: Size,
    gap: int,
    padding: int,
    viewport: Rectangle,
    snap: bool,
)
    requires
        since + delay < t1 <= t2,
        snap ==> inside(
            unclamped_frame(Position::FollowCursor, origin, source, p1, measured, gap, padding),
            viewport,
        ),
        snap ==> inside(
            unclamped_frame(Position::FollowCursor, origin, source, p2, measured, gap, padding),
            viewport,
        ),
    ensures
        ({
            let s1 = next_state(
                HoverState::Hovering { cursor_position: hovered_at, since },
                Some(p1),
                t1,
                delay,
                true,
            );
            let s2 = next_state(s1, Some(p2), t2, delay, true);
            &&& s1 == HoverState::Hovering { cursor_position: p1, since }
            &&& s2 == HoverState::Hovering { cursor_position: p2, since }
            &&& shows_hint(s1, t1, delay) && shows_hint(s2, t2, delay)
        }),
        ({
            let f1 = placement(Position::FollowCursor, origin, source, p1, measured, gap, padding, viewport, snap);
            let f2 = placement(Position::FollowCursor, origin, source, p2, measured, gap, padding, viewport, snap);
            &&& f1.x - p1.x == f2.x - p2.x == origin.x - source.x - padding
            &&& f1.y - p1.y == f2.y - p2.y == origin.y - source.y - measured.height - padding
            &&& p1 != p2 ==> f1 != f2
        }),
{
    assert(elapsed(since, t1) >= delay);
    assert(elapsed(since, t2) >= delay);
}

} // verus!
