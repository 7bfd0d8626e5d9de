use vstd::prelude::*;

use crate::blur::{blurred, pack, BlurError};
use crate::state::{Rect, Shape};
use crate::surface::{blur_image_surface, outlined, painted, region_of, side_ok, Surface, SurfaceView};

verus! {

/// Radius of the redaction blur.
pub const BLUR_RADIUS: i32 = 10;

/// `s` with the part inside `rect` replaced by its own blurred copy.
pub open spec fn blur_applied(s: SurfaceView, rect: Rect) -> SurfaceView {
    let region = region_of(s, rect.x as int, rect.y as int, rect.w as int, rect.h as int);
    let soft = SurfaceView {
        pixels: blurred(region.pixels, rect.w as int, rect.h as int, rect.w as int, BLUR_RADIUS),
        ..region
    };
    SurfaceView { pixels: painted(s, soft, rect), ..s }
}

/// The opaque ARGB pixel of an RGB colour.
pub open spec fn opaque(color: (u8, u8, u8)) -> u32 {
    pack(255, color.0 as u32, color.1 as u32, color.2 as u32)
}

/// `s` with a two-pixel outline of `rect` in `color`.
pub open spec fn rectangle_drawn(s: SurfaceView, rect: Rect, color: (u8, u8, u8)) -> SurfaceView {
    SurfaceView { pixels: outlined(s, rect, opaque(color)), ..s }
}

/// What committing `shape` does to the pixels that this library draws:
/// a blur rectangle is redacted in place and an outline rectangle stroked;
/// arrows are left to the host's vector renderer.
pub open spec fn baked(s: SurfaceView, shape: Shape) -> SurfaceView {
    match shape {
        Shape::Rectangle { rect, color } => rectangle_drawn(s, rect, color),
        Shape::Blur { rect } => if side_ok(rect.w) && side_ok(rect.h) {
            blur_applied(s, rect)
        } else {
            s
        },
        _ => s,
    }
}

/// Strokes the outline of `rect`, two pixels wide and centred on its edges,
/// in the opaque colour `color`; nothing inside is filled.
pub fn draw_rectangle(surface: &mut Surface, rect: &Rect, color: (u8, u8, u8))
    requires
        old(surface)@.wf(),
    ensures
        final(surface)@ == rectangle_drawn(old(surface)@, *rect, color),
        final(surface)@.wf(),
{
    let pixel: u32 = (255u32 << 24u32) | ((color.0 as u32) << 16u32) | ((color.1 as u32) << 8u32) | (
    color.2 as u32);
    surface.stroke_outline(rect, pixel);
}

/// Blurs the part of `surface` inside `rect`, destroying the original pixels.
/// Fails, leaving the surface as it was, when a side of `rect` is negative
/// or too long.
pub fn draw_blur(surface: &mut Surface, rect: &Rect) -> (r: Result<(), BlurError>)
    requires
        old(surface)@.wf(),
    ensures
        r is Ok <==> side_ok(rect.w) && side_ok(rect.h),
        r is Ok ==> final(surface)@ == blur_applied(old(surface)@, *rect),
        r is Err ==> final(surface)@ == old(surface)@ && r == Err::<(), BlurError>(BlurError::InvalidSize),
        final(surface)@.wf(),
{
    let soft = match blur_image_surface(surface, rect.x, rect.y, rect.w, rect.h, BLUR_RADIUS) {
        Ok(s) => s,
        Err(e) => {
            return Err(e);
        },
    };
    surface.paint_region(&soft, rect);
    Ok(())
}

} // verus!
