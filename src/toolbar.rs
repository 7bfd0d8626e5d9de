use vstd::prelude::*;

use crate::numeric::{clamp_i32, saturate_i32};
use crate::state::Rect;

verus! {

/// Where the toolbar goes for a selection: right-aligned under it, no
/// closer than 10 pixels to the left screen edge, 8 pixels below it.
pub open spec fn toolbar_spot(rect: Rect, toolbar_width: i32) -> (i32, i32) {
    let right = rect.x + rect.w - toolbar_width;
    (clamp_i32(if right < 10 { 10 } else { right }), clamp_i32(rect.y + rect.h + 8))
}

/// The start and top margins of a toolbar `toolbar_width` pixels wide that
/// goes with the selection `rect`.
pub fn toolbar_position(rect: &Rect, toolbar_width: i32) -> (r: (i32, i32))
    ensures
        r == toolbar_spot(*rect, toolbar_width),
{
    let right = rect.x as i64 + rect.w as i64 - toolbar_width as i64;
    let x = saturate_i32(if right < 10 { 10 } else { right });
    let y = saturate_i32(rect.y as i64 + rect.h as i64 + 8);
    (x, y)
}

} // verus!
