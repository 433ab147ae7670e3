//! The startup plan: what program entry draws, and from where it loads.
//!
//! Entry draws one rectangle synchronously, in a fresh random color, at a
//! fixed origin and extent, then issues the image load. The DOM lookup,
//! the callback registration and the await are host glue; the plan
//! computed here is the verified part.

use vstd::prelude::*;

use crate::canvas::CanvasOp;
use crate::canvas::draw_squre;
use crate::canvas::is_squre_ops;
use crate::color::color_seq;
use crate::color::get_hex_color;
use crate::color::valid_color;
use crate::geometry::Point;
use crate::geometry::Size;

verus! {

/// The fixed origin of the startup rectangle.
pub open spec fn start_origin() -> Point {
    Point { x: 100, y: 100 }
}

/// The fixed extent of the startup rectangle.
pub open spec fn start_size() -> Size {
    Size { width: 200, height: 100 }
}

/// The startup drawing plan: the command sequence of one
/// stroked-and-filled rectangle at the fixed origin and extent, in a
/// freshly drawn, well-formed random color.
pub fn start_ops() -> (ops: Vec<CanvasOp>)
    ensures
        exists|c: Seq<char>|
            valid_color(c) && #[trigger] is_squre_ops(ops@, start_origin(), start_size(), c),
{
    let color = get_hex_color();
    let origin = Point { x: 100, y: 100 };
    let size = Size { width: 200, height: 100 };
    let ops = draw_squre(&origin, &size, color.as_str());
    proof {
        assert(valid_color(color@) && is_squre_ops(ops@, start_origin(), start_size(), color@));
    }
    ops
}

/// The source path of the image fetched at startup.
pub fn image_source() -> (s: &'static str)
    ensures
        s@ == "images/boy_idle_1.png"@,
{
    "images/boy_idle_1.png"
}

} // verus!
