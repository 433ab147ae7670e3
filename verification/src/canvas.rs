//! The drawing surface modeled as a sequence of primitive commands.
//!
//! A renderer emits `CanvasOp` values in order; host glue replays them,
//! one for one, against the real 2D context. Visual output depends on the
//! exact order of the commands, so the contracts pin the whole sequence.

use vstd::prelude::*;

use crate::geometry::Point;
use crate::geometry::Size;

verus! {

/// One primitive operation against the host's drawing surface.
#[derive(Debug, Clone, PartialEq)]
pub enum CanvasOp {
    /// Start a new path.
    BeginPath,
    /// Move the pen without drawing.
    MoveTo(i64, i64),
    /// Extend the current path with a straight segment.
    LineTo(i64, i64),
    /// Close the current path back to its start.
    ClosePath,
    /// Stroke the current path's outline.
    Stroke,
    /// Set the fill color to the given color string.
    SetFillStyle(String),
    /// Fill the current path.
    Fill,
    /// Blit an already-loaded image at the given origin.
    DrawImage(i64, i64),
}

/// The exact command sequence of the rectangle renderer: pen moved to the
/// origin, a fresh path, the four edges walked down-right-up-back, the
/// path closed, the outline stroked, and only then the fill color set and
/// the fill applied. The quirky order (begin-path after the first move,
/// stroke before the fill style is set) is the observed contract and is
/// preserved as such.
pub open spec fn is_squre_ops(ops: Seq<CanvasOp>, cordinate: Point, size: Size, color: Seq<char>) -> bool {
    &&& ops.len() == 10
    &&& ops[0] matches CanvasOp::MoveTo(x, y) && x == cordinate.x && y == cordinate.y
    &&& ops[1] is BeginPath
    &&& ops[2] matches CanvasOp::LineTo(x, y) && x == cordinate.x && y == cordinate.y + size.height
    &&& ops[3] matches CanvasOp::LineTo(x, y) && x == cordinate.x + size.width && y == cordinate.y
        + size.height
    &&& ops[4] matches CanvasOp::LineTo(x, y) && x == cordinate.x + size.width && y == cordinate.y
    &&& ops[5] matches CanvasOp::LineTo(x, y) && x == cordinate.x && y == cordinate.y
    &&& ops[6] is ClosePath
    &&& ops[7] is Stroke
    &&& ops[8] matches CanvasOp::SetFillStyle(c) && c@ == color
    &&& ops[9] is Fill
}

/// Renders an axis-aligned stroked-and-filled rectangle from `cordinate`
/// with extent `size` in the given color, as the exact command sequence
/// `is_squre_ops` describes. Geometry is never validated: a negative
/// extent silently yields a degenerate or inverted shape.
pub fn draw_squre(cordinate: &Point, size: &Size, color: &str) -> (ops: Vec<CanvasOp>)
    requires
        i64::MIN <= cordinate.x + size.width <= i64::MAX,
        i64::MIN <= cordinate.y + size.height <= i64::MAX,
    ensures
        is_squre_ops(ops@, *cordinate, *size, color@),
{
    let mut ops: Vec<CanvasOp> = Vec::new();
    ops.push(CanvasOp::MoveTo(cordinate.x, cordinate.y));
    ops.push(CanvasOp::BeginPath);
    ops.push(CanvasOp::LineTo(cordinate.x, cordinate.y + size.height));
    ops.push(CanvasOp::LineTo(cordinate.x + size.width, cordinate.y + size.height));
    ops.push(CanvasOp::LineTo(cordinate.x + size.width, cordinate.y));
    ops.push(CanvasOp::LineTo(cordinate.x, cordinate.y));
    ops.push(CanvasOp::ClosePath);
    ops.push(CanvasOp::Stroke);
    ops.push(CanvasOp::SetFillStyle(color.to_owned()));
    ops.push(CanvasOp::Fill);
    ops
}

} // verus!
