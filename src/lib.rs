//! Hover-delayed hints anchored to a source element.
//!
//! The library holds the two pieces of a tooltip that carry real invariants:
//! the hover-timing state machine, which decides when the hint becomes
//! visible and when the host should wake up again, and the placement
//! algorithm, which turns a placement mode, gap and padding into the hint's
//! rectangle and keeps it inside the viewport when asked to.
//!
//! Geometry is measured in whole units (`i64`), time in milliseconds of a
//! monotonic clock (`u64`).
pub mod geometry;
pub mod hover;
pub mod placement;
pub mod widget;
