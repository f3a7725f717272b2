//! The hover-timing state machine: pointer residency over the source, and when
//! the host should draw again.
use vstd::prelude::*;
use crate::geometry::Point;

verus! {

/// Whether the pointer rests over the source, and since when.
#[derive(Clone, Copy, Debug, PartialEq, Eq, Structural)]
pub enum HoverState {
    /// The pointer is not over the source.
    Idle,
    /// The pointer is over the source; `since` is when the current uninterrupted
    /// hover began.
    Hovering { cursor_position: Point, since: u64 },
}

impl Default for HoverState {
    /// The state of a tooltip that has just been created: no pointer over it.
    fn default() -> (r: HoverState)
        ensures
            r == HoverState::Idle,
    {
        HoverState::Idle
    }
}

/// When the host should run its next pass.
#[derive(Clone, Copy, Debug, PartialEq, Eq, Structural)]
pub enum Redraw {
    /// Nothing is asked for.
    Skip,
    /// As soon as possible.
    Now,
    /// No earlier than the given instant.
    At(u64),
}

/// What a hover update asks of the host.
#[derive(Clone, Copy, Debug, PartialEq, Eq, Structural)]
pub struct Schedule {
    /// The layout must be computed anew.
    pub invalidate_layout: bool,
    /// When to draw again.
    pub redraw: Redraw,
}

/// Time since `since`, or zero if the clock reads earlier than that.
pub open spec fn elapsed(since: u64, now: u64) -> int {
    if now >= since {
        now - since
    } else {
        0
    }
}

/// The state after a pointer sample at `now`: `pointer` is where the pointer is
/// over the source, if it is.
pub open spec fn next_state(
    state: HoverState,
    pointer: Option<Point>,
    now: u64,
    delay: u64,
    follows_cursor: bool,
) -> HoverState {
    match (state, pointer) {
        (HoverState::Idle, Some(p)) => HoverState::Hovering { cursor_position: p, since: now },
        (HoverState::Hovering { .. }, None) => HoverState::Idle,
        (HoverState::Hovering { since, .. }, Some(p)) => {
            if elapsed(since, now) < delay || follows_cursor {
                HoverState::Hovering { cursor_position: p, since }
            } else {
                state
            }
        },
        (HoverState::Idle, None) => HoverState::Idle,
    }
}

/// What the host is asked to do after a pointer sample at `now`.
pub open spec fn schedule_of(
    state: HoverState,
    pointer: Option<Point>,
    now: u64,
    delay: u64,
    follows_cursor: bool,
) -> Schedule {
    match (state, pointer) {
        (HoverState::Idle, Some(_)) => Schedule {
            invalidate_layout: true,
            redraw: Redraw::At((now + delay) as u64),
        },
        (HoverState::Hovering { .. }, None) => Schedule {
            invalidate_layout: true,
            redraw: Redraw::Now,
        },
        (HoverState::Hovering { since, .. }, Some(_)) => {
            if elapsed(since, now) < delay {
                Schedule { invalidate_layout: false, redraw: Redraw::At((since + delay) as u64) }
            } else if follows_cursor {
                Schedule { invalidate_layout: false, redraw: Redraw::Now }
            } else {
                Schedule { invalidate_layout: false, redraw: Redraw::Skip }
            }
        },
        (HoverState::Idle, None) => Schedule { invalidate_layout: false, redraw: Redraw::Skip },
    }
}

/// Whether the hint is shown at `now`: the pointer has rested over the source for
/// strictly longer than `delay`.
pub open spec fn shows_hint(state: HoverState, now: u64, delay: u64) -> bool {
    match state {
        HoverState::Idle => false,
        HoverState::Hovering { since, .. } => now - since > delay,
    }
}

/// Whether a sample can be taken without a deadline passing the end of the clock.
pub open spec fn deadline_fits(state: HoverState, pointer: Option<Point>, now: u64, delay: u64) -> bool {
    match (state, pointer) {
        (HoverState::Idle, Some(_)) => now + delay <= u64::MAX,
        (HoverState::Hovering { since, .. }, Some(_)) => since + delay <= u64::MAX,
        _ => true,
    }
}

/// Feeds one pointer sample to the state machine.
///
/// `pointer` is the pointer's position if it is over the source, `now` the clock,
/// `delay` how long the pointer must rest before the hint shows, and
/// `follows_cursor` whether a shown hint moves with the pointer. Returns the next
/// state and what the host should do: on entry a wake-up at `now + delay`, while
/// waiting the same deadline again, on exit an immediate redraw, and once shown an
/// immediate redraw on every sample only when the hint follows the pointer.
pub fn track_hover(
    state: HoverState,
    pointer: Option<Point>,
    now: u64,
    delay: u64,
    follows_cursor: bool,
) -> (r: (HoverState, Schedule))
    requires
        deadline_fits(state, pointer, now, delay),
    ensures
        r.0 == next_state(state, pointer, now, delay, follows_cursor),
        r.1 == schedule_of(state, pointer, now, delay, follows_cursor),
{
    match (state, pointer) {
        (HoverState::Idle, Some(p)) => (
            HoverState::Hovering { cursor_position: p, since: now },
            Schedule { invalidate_layout: true, redraw: Redraw::At(now + delay) },
        ),
        (HoverState::Hovering { .. }, None) => (
            HoverState::Idle,
            Schedule { invalidate_layout: true, redraw: Redraw::Now },
        ),
        (HoverState::Hovering { since, .. }, Some(p)) => {
            let waited: u64 = if now >= since {
                now - since
            } else {
                0
            };
            if waited < delay {
                (
                    HoverState::Hovering { cursor_position: p, since },
                    Schedule { invalidate_layout: false, redraw: Redraw::At(since + delay) },
                )
            } else if follows_cursor {
                (
                    HoverState::Hovering { cursor_position: p, since },
                    Schedule { invalidate_layout: false, redraw: Redraw::Now },
                )
            } else {
                (state, Schedule { invalidate_layout: false, redraw: Redraw::Skip })
            }
        },
        (HoverState::Idle, None) => (
            HoverState::Idle,
            Schedule { invalidate_layout: false, redraw: Redraw::Skip },
        ),
    }
}

/// Whether the hint is shown at `now`.
pub fn hint_shown(state: &HoverState, now: u64, delay: u64) -> (r: bool)
    ensures
        r == shows_hint(*state, now, delay),
{
    match state {
        HoverState::Idle => false,
        HoverState::Hovering { since, .. } => now > *since && now - *since > delay,
    }
}

/// The state after feeding `samples` in order, each a pointer position over the
/// source (if any) and the clock's reading.
pub open spec fn replay(
    state: HoverState,
    samples: Seq<(Option<Point>, u64)>,
    delay: u64,
    follows_cursor: bool,
) -> HoverState
    decreases samples.len(),
{
    if samples.len() == 0 {
        state
    } else {
        replay(
            next_state(state, samples[0].0, samples[0].1, delay, follows_cursor),
            samples.drop_first(),
            delay,
            follows_cursor,
        )
    }
}

/// While the pointer stays over the source, a hover keeps the instant at which it began.
pub proof fn lemma_staying_keeps_since(
    cursor: Point,
    since: u64,
    samples: Seq<(Option<Point>, u64)>,
    delay: u64,
    follows_cursor: bool,
)
    requires
        forall|i: int| 0 <= i < samples.len() ==> (#[trigger] samples[i]).0 is Some,
    ensures
        replay(HoverState::Hovering { cursor_position: cursor, since }, samples, delay, follows_cursor)
            matches HoverState::Hovering { since: s, .. } && s == since,
    decreases samples.len(),
{
    if samples.len() > 0 {
        let next = next_state(
            HoverState::Hovering { cursor_position: cursor, since },
            samples[0].0,
            samples[0].1,
            delay,
            follows_cursor,
        );
        assert(samples[0].0 is Some);
        let rest = samples.drop_first();
        assert forall|i: int| 0 <= i < rest.len() implies (#[trigger] rest[i]).0 is Some by {
            assert(rest[i] == samples[i + 1]);
        }
        match next {
            HoverState::Hovering { cursor_position, .. } => {
                lemma_staying_keeps_since(cursor_position, since, rest, delay, follows_cursor);
            },
            HoverState::Idle => {},
        }
    }
}

/// Delay gating: when the pointer enters the source at `t0` and stays over it for
/// any number of further samples, the hint is shown at a time `t` exactly when `t`
/// is past `t0 + delay`; it is hidden throughout `[t0, t0 + delay]`.
pub proof fn lemma_delay_gating(
    enter: Point,
    t0: u64,
    stays: Seq<(Option<Point>, u64)>,
    delay: u64,
    follows_cursor: bool,
    t: u64,
)
    requires
        forall|i: int| 0 <= i < stays.len() ==> (#[trigger] stays[i]).0 is Some,
    ensures
        shows_hint(
            replay(HoverState::Idle, seq![(Some(enter), t0)].add(stays), delay, follows_cursor),
            t,
            delay,
        ) <==> t > t0 + delay,
{
    let samples = seq![(Some(enter), t0)].add(stays);
    assert(samples.drop_first() =~= stays);
    let entered = HoverState::Hovering { cursor_position: enter, since: t0 };
    assert(replay(HoverState::Idle, samples, delay, follows_cursor) == replay(
        entered,
        stays,
        delay,
        follows_cursor,
    ));
    lemma_staying_keeps_since(enter, t0, stays, delay, follows_cursor);
}

/// Leaving resets the timing: whatever the state, once the pointer leaves at `t1`
/// and comes back at `t2`, the hint is shown at a time `t` exactly when `t` is past
/// `t2 + delay`; time spent over the source before leaving does not count.
pub proof fn lemma_exit_resets(
    state: HoverState,
    t1: u64,
    back: Point,
    t2: u64,
    delay: u64,
    follows_cursor: bool,
    t: u64,
)
    ensures
        next_state(state, None, t1, delay, follows_cursor) == HoverState::Idle,
        shows_hint(
            replay(state, seq![(None, t1), (Some(back), t2)], delay, follows_cursor),
            t,
            delay,
        ) <==> t > t2 + delay,
{
    let samples = seq![(None::<Point>, t1), (Some(back), t2)];
    let rest = samples.drop_first();
    assert(rest[0] == (Some(back), t2));
    assert(rest.drop_first().len() == 0);
    let entered = HoverState::Hovering { cursor_position: back, since: t2 };
    assert(replay(entered, rest.drop_first(), delay, follows_cursor) == entered);
    assert(replay(HoverState::Idle, rest, delay, follows_cursor) == entered);
    assert(replay(state, samples, delay, follows_cursor) == entered);
}

/// Without the pointer there is no hint, at any time and for any delay, zero included.
pub proof fn lemma_idle_shows_nothing(now: u64, delay: u64)
    ensures
        !shows_hint(HoverState::Idle, now, delay),
{
}

} // verus!
