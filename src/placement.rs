//! Where a visible hint is placed, and how it is kept inside the viewport.
use vstd::prelude::*;
use crate::geometry::{Point, Rectangle, Size, fits_i64, half_floor, halve_floor};

verus! {

/// Where the hint appears relative to its source.
#[derive(Clone, Copy, Debug, PartialEq, Eq, Structural)]
pub enum Position {
    /// Above the source, centred horizontally.
    Top,
    /// Below the source, centred horizontally.
    Bottom,
    /// Left of the source, centred vertically.
    Left,
    /// Right of the source, centred vertically.
    Right,
    /// Just above and to the right of the pointer.
    FollowCursor,
}

impl Default for Position {
    fn default() -> (r: Position)
        ensures
            r == Position::Top,
    {
        Position::Top
    }
}

/// The start of a span of length `inner` centred on the span `[start, start + outer)`.
pub open spec fn centered(start: int, outer: int, inner: int) -> int {
    start + half_floor(outer - inner)
}

/// The corner of the hint's content before padding and clamping.
///
/// `origin` is the source's corner in the overlay's coordinate space, `source` its
/// bounds in its own layout space; they differ by the translation of any enclosing
/// scrolled or translated container.
pub open spec fn anchor(
    position: Position,
    origin: Point,
    source: Rectangle,
    cursor: Point,
    measured: Size,
    gap: int,
    padding: int,
) -> (int, int) {
    let x_center = centered(origin.x as int, source.width as int, measured.width as int);
    let y_center = centered(origin.y as int, source.height as int, measured.height as int);
    match position {
        Position::Top => (x_center, origin.y - measured.height - gap - padding),
        Position::Bottom => (x_center, origin.y + source.height + gap + padding),
        Position::Left => (origin.x - measured.width - gap - padding, y_center),
        Position::Right => (origin.x + source.width + gap + padding, y_center),
        Position::FollowCursor => (
            cursor.x + (origin.x - source.x),
            cursor.y - measured.height + (origin.y - source.y),
        ),
    }
}

/// The start of a span of length `len` shifted into `[vstart, vstart + vlen)`:
/// to the low edge if it begins before it or is longer than it, else to the high
/// edge if it ends after it.
pub open spec fn clamp_start(start: int, len: int, vstart: int, vlen: int) -> int {
    if start < vstart || len > vlen {
        vstart
    } else if vstart + vlen < start + len {
        vstart + vlen - len
    } else {
        start
    }
}

/// An integer rectangle of the model: corner and size.
pub struct Frame {
    pub x: int,
    pub y: int,
    pub width: int,
    pub height: int,
}

/// The model of a rectangle.
pub open spec fn frame_of(r: Rectangle) -> Frame {
    Frame { x: r.x as int, y: r.y as int, width: r.width as int, height: r.height as int }
}

/// `r` shifted into `viewport` on each axis independently.
pub open spec fn clamped(r: Frame, viewport: Rectangle) -> Frame {
    Frame {
        x: clamp_start(r.x, r.width, viewport.x as int, viewport.width as int),
        y: clamp_start(r.y, r.height, viewport.y as int, viewport.height as int),
        width: r.width,
        height: r.height,
    }
}

/// The hint's rectangle before clamping: the anchored content inflated by `padding`
/// on every side.
pub open spec fn unclamped_frame(
    position: Position,
    origin: Point,
    source: Rectangle,
    cursor: Point,
    measured: Size,
    gap: int,
    padding: int,
) -> Frame {
    let (x, y) = anchor(position, origin, source, cursor, measured, gap, padding);
    Frame {
        x: x - padding,
        y: y - padding,
        width: measured.width + 2 * padding,
        height: measured.height + 2 * padding,
    }
}

/// The hint's final rectangle: the unclamped one, shifted into `viewport` when `snap` holds.
pub open spec fn placement(
    position: Position,
    origin: Point,
    source: Rectangle,
    cursor: Point,
    measured: Size,
    gap: int,
    padding: int,
    viewport: Rectangle,
    snap: bool,
) -> Frame {
    let r = unclamped_frame(position, origin, source, cursor, measured, gap, padding);
    if snap {
        clamped(r, viewport)
    } else {
        r
    }
}

/// Whether every field of a model rectangle can be held in an `i64`.
pub open spec fn frame_fits(r: Frame) -> bool {
    fits_i64(r.x) && fits_i64(r.y) && fits_i64(r.width) && fits_i64(r.height)
}

/// Whether `r` lies wholly inside `viewport`.
pub open spec fn inside(r: Frame, viewport: Rectangle) -> bool {
    &&& viewport.x <= r.x
    &&& r.x + r.width <= viewport.x + viewport.width
    &&& viewport.y <= r.y
    &&& r.y + r.height <= viewport.y + viewport.height
}

/// Whether `v` is small enough for the sums of a few of them to stay within `i128`.
spec fn moderate(v: int) -> bool {
    -0x1_0000_0000_0000_0000_0000 <= v <= 0x1_0000_0000_0000_0000_0000
}

fn clamp_axis(start: i128, len: i128, vstart: i128, vlen: i128) -> (r: i128)
    requires
        moderate(start as int),
        moderate(len as int),
        moderate(vstart as int),
        moderate(vlen as int),
    ensures
        r == clamp_start(start as int, len as int, vstart as int, vlen as int),
{
    if start < vstart || len > vlen {
        vstart
    } else if vstart + vlen < start + len {
        vstart + vlen - len
    } else {
        start
    }
}

/// Shifts `rect` into `viewport` on each axis independently, never resizing it.
///
/// On an axis where the rectangle begins before the viewport, or is longer than it,
/// it is moved to the viewport's low edge (a longer one then overflows at the high
/// edge); otherwise, where it ends after the viewport, it is moved so that its high
/// edge meets the viewport's.
pub fn clamp_to_viewport(rect: Rectangle, viewport: Rectangle) -> (r: Rectangle)
    requires
        frame_fits(clamped(frame_of(rect), viewport)),
    ensures
        frame_of(r) == clamped(frame_of(rect), viewport),
        rect.width <= viewport.width ==> viewport.x <= r.x && r.x + r.width <= viewport.x
            + viewport.width,
        rect.height <= viewport.height ==> viewport.y <= r.y && r.y + r.height <= viewport.y
            + viewport.height,
        rect.width > viewport.width ==> r.x == viewport.x,
        rect.height > viewport.height ==> r.y == viewport.y,
{
    let x = clamp_axis(rect.x as i128, rect.width as i128, viewport.x as i128, viewport.width as i128);
    let y = clamp_axis(rect.y as i128, rect.height as i128, viewport.y as i128, viewport.height as i128);
    Rectangle { x: x as i64, y: y as i64, width: rect.width, height: rect.height }
}

/// Computes the hint's rectangle.
///
/// The content of size `measured` is anchored per `position` with `gap` and `padding`
/// as outward margins (centred on the source's other axis), inflated by `padding` on
/// every side, and, when `snap` holds, shifted into `viewport`. `origin` is the
/// source's corner in the overlay's space and `source` its bounds in its own layout
/// space; `FollowCursor` places the content's lower-left corner at `cursor` moved by
/// the difference of the two.
pub fn place(
    position: Position,
    origin: Point,
    source: Rectangle,
    cursor: Point,
    measured: Size,
    gap: i64,
    padding: i64,
    viewport: Rectangle,
    snap: bool,
) -> (r: Rectangle)
    requires
        frame_fits(
            placement(position, origin, source, cursor, measured, gap as int, padding as int, viewport, snap),
        ),
    ensures
        frame_of(r) == placement(
            position,
            origin,
            source,
            cursor,
            measured,
            gap as int,
            padding as int,
            viewport,
            snap,
        ),
        r.width == measured.width + 2 * padding,
        r.height == measured.height + 2 * padding,
        snap && measured.width + 2 * padding <= viewport.width ==> viewport.x <= r.x && r.x
            + r.width <= viewport.x + viewport.width,
        snap && measured.height + 2 * padding <= viewport.height ==> viewport.y <= r.y && r.y
            + r.height <= viewport.y + viewport.height,
        snap && measured.width + 2 * padding > viewport.width ==> r.x == viewport.x,
        snap && measured.height + 2 * padding > viewport.height ==> r.y == viewport.y,
{
    let ox = origin.x as i128;
    let oy = origin.y as i128;
    let sw = source.width as i128;
    let sh = source.height as i128;
    let mw = measured.width as i128;
    let mh = measured.height as i128;
    let g = gap as i128;
    let p = padding as i128;
    let (ax, ay): (i128, i128) = match position {
        Position::Top => (ox + halve_floor(sw - mw), oy - mh - g - p),
        Position::Bottom => (ox + halve_floor(sw - mw), oy + sh + g + p),
        Position::Left => (ox - mw - g - p, oy + halve_floor(sh - mh)),
        Position::Right => (ox + sw + g + p, oy + halve_floor(sh - mh)),
        Position::FollowCursor => (
            cursor.x as i128 + (ox - source.x as i128),
            cursor.y as i128 - mh + (oy - source.y as i128),
        ),
    };
    let mut x: i128 = ax - p;
    let mut y: i128 = ay - p;
    let width: i128 = mw + 2 * p;
    let height: i128 = mh + 2 * p;
    if snap {
        x = clamp_axis(x, width, viewport.x as i128, viewport.width as i128);
        y = clamp_axis(y, height, viewport.y as i128, viewport.height as i128);
    }
    Rectangle { x: x as i64, y: y as i64, width: width as i64, height: height as i64 }
}

/// Clamping is a projection: clamping a rectangle that was already clamped into the
/// same viewport leaves it where it is.
pub proof fn lemma_clamp_idempotent(r: Frame, viewport: Rectangle)
    ensures
        clamped(clamped(r, viewport), viewport) == clamped(r, viewport),
{
}

/// The hint's box is its content inflated by `padding` on every side, in every mode,
/// with or without snapping: clamping shifts the box and never resizes it.
pub proof fn lemma_inflated_size(
    position: Position,
    origin: Point,
    source: Rectangle,
    cursor: Point,
    measured: Size,
    gap: int,
    padding: int,
    viewport: Rectangle,
    snap: bool,
)
    ensures
        placement(position, origin, source, cursor, measured, gap, padding, viewport, snap).width
            == measured.width + 2 * padding,
        placement(position, origin, source, cursor, measured, gap, padding, viewport, snap).height
            == measured.height + 2 * padding,
{
}

} // verus!
