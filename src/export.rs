use vstd::prelude::*;

use crate::blur::BlurError;
use crate::state::ScreenshotState;
use crate::surface::{copy_region, region_of, side_ok, Surface};

verus! {

/// The selected part of the composited surface, cropped into a surface of
/// its own, ready to be encoded. Fails when the selection has a side that
/// no surface may have.
pub fn export_selection(source: &Surface, state: &ScreenshotState) -> (r: Result<Surface, BlurError>)
    requires
        source@.wf(),
    ensures
        r is Ok <==> side_ok(state@.rect.w) && side_ok(state@.rect.h),
        r is Err ==> r == Err::<Surface, BlurError>(BlurError::InvalidSize),
        r matches Ok(s) ==> s@ == region_of(
            source@,
            state@.rect.x as int,
            state@.rect.y as int,
            state@.rect.w as int,
            state@.rect.h as int,
        ) && s@.wf(),
{
    let rect = state.selection().rect();
    copy_region(source, rect.x, rect.y, rect.w, rect.h)
}

} // verus!
