use vstd::prelude::*;

use vstd::arithmetic::div_mod::lemma_fundamental_div_mod_converse;

use crate::blur::{blur_pixels, blurred, BlurError};
use crate::state::Rect;

verus! {

/// The longest side, in pixels, that a surface may have.
pub const MAX_SURFACE_SIDE: i32 = 32767;

/// A surface as contracts see it: `height` rows of `stride / 4` ARGB words,
/// of which the first `width` in each row are pixels.
pub struct SurfaceView {
    pub width: nat,
    pub height: nat,
    pub stride: nat,
    pub pixels: Seq<u32>,
}

impl SurfaceView {
    /// Pixels between the starts of two rows.
    pub open spec fn row_pixels(self) -> nat {
        self.stride / 4
    }

    pub open spec fn wf(self) -> bool {
        &&& self.width <= MAX_SURFACE_SIDE
        &&& self.height <= MAX_SURFACE_SIDE
        &&& self.stride % 4 == 0
        &&& self.width <= self.row_pixels()
        &&& self.pixels.len() == self.row_pixels() * self.height
    }

    /// The pixel at `(x, y)`, or transparent black outside the surface.
    pub open spec fn pixel_or_clear(self, x: int, y: int) -> u32 {
        if 0 <= x < self.width && 0 <= y < self.height {
            self.pixels[y * self.row_pixels() + x]
        } else {
            0
        }
    }
}

/// Whether a side length is one that a surface may have.
pub open spec fn side_ok(v: i32) -> bool {
    0 <= v <= MAX_SURFACE_SIDE
}

/// The `w * h` unpadded surface holding the pixels of `src` from `(x, y)` on;
/// pixels beyond `src` are transparent black.
pub open spec fn region_of(src: SurfaceView, x: int, y: int, w: int, h: int) -> SurfaceView {
    SurfaceView {
        width: w as nat,
        height: h as nat,
        stride: (4 * w) as nat,
        pixels: Seq::new((w * h) as nat, |j: int| src.pixel_or_clear(x + j % w, y + j / w)),
    }
}

/// Whether the surface position `(px, py)` lies in `rect`.
pub open spec fn covers(rect: Rect, px: int, py: int) -> bool {
    rect.x <= px < rect.x + rect.w && rect.y <= py < rect.y + rect.h
}

/// `dst` with the part inside `rect` replaced by `src`, which is placed at
/// the rectangle's origin.
pub open spec fn painted(dst: SurfaceView, src: SurfaceView, rect: Rect) -> Seq<u32> {
    let sp = dst.row_pixels() as int;
    Seq::new(
        dst.pixels.len(),
        |i: int|
            if i % sp < dst.width && covers(rect, i % sp, i / sp) {
                src.pixels[(i / sp - rect.y) * src.row_pixels() + (i % sp - rect.x)]
            } else {
                dst.pixels[i]
            },
    )
}

/// Whether `(px, py)` lies on the two-pixel band centred on the edges of `rect`.
pub open spec fn on_outline(rect: Rect, px: int, py: int) -> bool {
    let outer = rect.x - 1 <= px < rect.x + rect.w + 1 && rect.y - 1 <= py < rect.y + rect.h + 1;
    let inner = rect.x + 1 <= px < rect.x + rect.w - 1 && rect.y + 1 <= py < rect.y + rect.h - 1;
    outer && !inner
}

/// `dst` with every pixel on the outline of `rect` set to `pixel`.
pub open spec fn outlined(dst: SurfaceView, rect: Rect, pixel: u32) -> Seq<u32> {
    let sp = dst.row_pixels() as int;
    Seq::new(
        dst.pixels.len(),
        |i: int|
            if i % sp < dst.width && on_outline(rect, i % sp, i / sp) {
                pixel
            } else {
                dst.pixels[i]
            },
    )
}

/// An ARGB32 pixel buffer: one word per pixel, rows `stride` bytes apart.
pub struct Surface {
    width: usize,
    height: usize,
    stride: usize,
    data: Vec<u32>,
}

impl View for Surface {
    type V = SurfaceView;

    closed spec fn view(&self) -> SurfaceView {
        SurfaceView {
            width: self.width as nat,
            height: self.height as nat,
            stride: self.stride as nat,
            pixels: self.data@,
        }
    }
}

impl Surface {
    /// Takes `data` as the pixels of a `width * height` surface whose rows
    /// are `stride` bytes apart, after checking that the layout fits.
    pub fn from_pixels(width: usize, height: usize, stride: usize, data: Vec<u32>) -> (r: Result<Surface, BlurError>)
        ensures
            match r {
                Ok(s) => s@ == (SurfaceView {
                    width: width as nat,
                    height: height as nat,
                    stride: stride as nat,
                    pixels: data@,
                }),
                Err(e) => e == if width > MAX_SURFACE_SIDE || height > MAX_SURFACE_SIDE {
                    BlurError::InvalidSize
                } else if stride % 4 != 0 || stride / 4 < width {
                    BlurError::MisalignedStride
                } else {
                    BlurError::BufferSize
                },
            },
            r is Ok <==> (SurfaceView {
                width: width as nat,
                height: height as nat,
                stride: stride as nat,
                pixels: data@,
            }).wf(),
    {
        if width > MAX_SURFACE_SIDE as usize || height > MAX_SURFACE_SIDE as usize {
            return Err(BlurError::InvalidSize);
        }
        if stride % 4 != 0 || stride / 4 < width {
            return Err(BlurError::MisalignedStride);
        }
        match (stride / 4).checked_mul(height) {
            Some(n) => {
                if n != data.len() {
                    return Err(BlurError::BufferSize);
                }
            },
            None => {
                assert(data@.len() == data.len());
                return Err(BlurError::BufferSize);
            },
        }
        Ok(Surface { width, height, stride, data })
    }

    pub fn width(&self) -> (r: usize)
        ensures
            r == self@.width,
    {
        self.width
    }

    pub fn height(&self) -> (r: usize)
        ensures
            r == self@.height,
    {
        self.height
    }

    /// Bytes between the starts of two rows.
    pub fn stride(&self) -> (r: usize)
        ensures
            r == self@.stride,
    {
        self.stride
    }

    pub fn pixels(&self) -> (r: &[u32])
        ensures
            r@ == self@.pixels,
    {
        self.data.as_slice()
    }

    pub fn into_pixels(self) -> (r: Vec<u32>)
        ensures
            r@ == self@.pixels,
    {
        self.data
    }

    /// A copy of the surface with its own pixel storage.
    pub fn duplicate(&self) -> (r: Surface)
        ensures
            r@ == self@,
    {
        let mut data: Vec<u32> = Vec::new();
        let mut i: usize = 0;
        while i < self.data.len()
            invariant
                i <= self.data.len(),
                data@ =~= self.data@.subrange(0, i as int),
            decreases self.data.len() - i,
        {
            data.push(self.data[i]);
            i = i + 1;
        }
        assert(data@ =~= self.data@);
        Surface { width: self.width, height: self.height, stride: self.stride, data }
    }

    /// Replaces the part of the surface inside `rect` by `src`, placed at the
    /// rectangle's origin; pixels outside the surface are dropped.
    pub fn paint_region(&mut self, src: &Surface, rect: &Rect)
        requires
            old(self)@.wf(),
            src@.wf(),
            src@.width == rect.w,
            src@.height == rect.h,
        ensures
            final(self)@ == (SurfaceView { pixels: painted(old(self)@, src@, *rect), ..old(self)@ }),
    {
        let ghost dst = self@;
        let ghost sp = dst.row_pixels() as int;
        let stride_px = self.stride / 4;
        let src_px = src.stride / 4;
        let mut y: usize = 0;
        while y < self.height
            invariant
                dst.wf(),
                src@.wf(),
                src@.width == rect.w,
                src@.height == rect.h,
                self.width == dst.width,
                self.height == dst.height,
                self.stride == dst.stride,
                stride_px == sp,
                sp == dst.row_pixels(),
                src_px == src@.row_pixels(),
                self.data.len() == dst.pixels.len(),
                y <= self.height,
                forall|i: int|
                    0 <= i < dst.pixels.len() ==> #[trigger] self.data@[i] == if i < y * sp {
                        painted(dst, src@, *rect)[i]
                    } else {
                        dst.pixels[i]
                    },
            decreases self.height - y,
        {
            assert(dst.pixels.len() == sp * dst.height);
            assert(y * sp + sp <= dst.pixels.len()) by (nonlinear_arith)
                requires
                    y < dst.height,
                    dst.pixels.len() == sp * dst.height,
                    0 <= sp,
            ;
            let row = y * stride_px;
            let mut x: usize = 0;
            while x < stride_px
                invariant
                    dst.wf(),
                    src@.wf(),
                    src@.width == rect.w,
                    src@.height == rect.h,
                    self.width == dst.width,
                    self.height == dst.height,
                    self.stride == dst.stride,
                    stride_px == sp,
                    sp == dst.row_pixels(),
                    src_px == src@.row_pixels(),
                    self.data.len() == dst.pixels.len(),
                    y < self.height,
                    row == y * sp,
                    row + sp <= dst.pixels.len(),
                    x <= stride_px,
                    forall|i: int|
                        0 <= i < dst.pixels.len() ==> #[trigger] self.data@[i] == if i < row + x {
                            painted(dst, src@, *rect)[i]
                        } else {
                            dst.pixels[i]
                        },
                decreases stride_px - x,
            {
                let idx = row + x;
                proof {
                    lemma_fundamental_div_mod_converse(idx as int, sp, y as int, x as int);
                }
                if x < self.width {
                    let px = x as i64;
                    let py = y as i64;
                    if rect.x as i64 <= px && px < rect.x as i64 + rect.w as i64 && rect.y as i64
                        <= py && py < rect.y as i64 + rect.h as i64 {
                        let sx = (px - rect.x as i64) as usize;
                        let sy = (py - rect.y as i64) as usize;
                        assert(sy * src_px + sx < src@.pixels.len()) by (nonlinear_arith)
                            requires
                                sy < src@.height,
                                sx < src@.width,
                                src@.width <= src_px,
                                src@.pixels.len() == src_px * src@.height,
                        ;
                        assert(src.data.len() == src@.pixels.len());
                        let p = src.data[sy * src_px + sx];
                        assert(painted(dst, src@, *rect)[idx as int] == p);
                        self.data.set(idx, p);
                    }
                }
                x = x + 1;
            }
            assert((y + 1) * sp == row + sp) by (nonlinear_arith)
                requires
                    row == y * sp,
            ;
            y = y + 1;
        }
        assert(dst.height * sp == sp * dst.height) by (nonlinear_arith);
        assert(self.data@ =~= painted(dst, src@, *rect));
    }

    /// Sets every pixel on the two-pixel outline of `rect` to `pixel`;
    /// pixels outside the surface are dropped.
    pub fn stroke_outline(&mut self, rect: &Rect, pixel: u32)
        requires
            old(self)@.wf(),
        ensures
            final(self)@ == (SurfaceView { pixels: outlined(old(self)@, *rect, pixel), ..old(self)@ }),
    {
        let ghost dst = self@;
        let ghost sp = dst.row_pixels() as int;
        let stride_px = self.stride / 4;
        let left = rect.x as i64;
        let top = rect.y as i64;
        let right = rect.x as i64 + rect.w as i64;
        let bottom = rect.y as i64 + rect.h as i64;
        let mut y: usize = 0;
        while y < self.height
            invariant
                dst.wf(),
                self.width == dst.width,
                self.height == dst.height,
                self.stride == dst.stride,
                stride_px == sp,
                sp == dst.row_pixels(),
                left == rect.x && top == rect.y && right == rect.x + rect.w && bottom == rect.y + rect.h,
                self.data.len() == dst.pixels.len(),
                y <= self.height,
                forall|i: int|
                    0 <= i < dst.pixels.len() ==> #[trigger] self.data@[i] == if i < y * sp {
                        outlined(dst, *rect, pixel)[i]
                    } else {
                        dst.pixels[i]
                    },
            decreases self.height - y,
        {
            assert(dst.pixels.len() == sp * dst.height);
            assert(y * sp + sp <= dst.pixels.len()) by (nonlinear_arith)
                requires
                    y < dst.height,
                    dst.pixels.len() == sp * dst.height,
                    0 <= sp,
            ;
            let row = y * stride_px;
            let mut x: usize = 0;
            while x < stride_px
                invariant
                    dst.wf(),
                    self.width == dst.width,
                    self.height == dst.height,
                    self.stride == dst.stride,
                    stride_px == sp,
                    sp == dst.row_pixels(),
                    left == rect.x && top == rect.y && right == rect.x + rect.w && bottom == rect.y
                        + rect.h,
                    self.data.len() == dst.pixels.len(),
                    y < self.height,
                    row == y * sp,
                    row + sp <= dst.pixels.len(),
                    x <= stride_px,
                    forall|i: int|
                        0 <= i < dst.pixels.len() ==> #[trigger] self.data@[i] == if i < row + x {
                            outlined(dst, *rect, pixel)[i]
                        } else {
                            dst.pixels[i]
                        },
                decreases stride_px - x,
            {
                let idx = row + x;
                proof {
                    lemma_fundamental_div_mod_converse(idx as int, sp, y as int, x as int);
                }
                if x < self.width {
                    let px = x as i64;
                    let py = y as i64;
                    let outer = left - 1 <= px && px < right + 1 && top - 1 <= py && py < bottom + 1;
                    let inner = left + 1 <= px && px < right - 1 && top + 1 <= py && py < bottom - 1;
                    if outer && !inner {
                        self.data.set(idx, pixel);
                    }
                }
                x = x + 1;
            }
            assert((y + 1) * sp == row + sp) by (nonlinear_arith)
                requires
                    row == y * sp,
            ;
            y = y + 1;
        }
        assert(dst.height * sp == sp * dst.height) by (nonlinear_arith);
        assert(self.data@ =~= outlined(dst, *rect, pixel));
    }
}

/// The `w * h` part of `source` from `(x, y)` on, as a surface of its own.
/// Fails when a side is negative or too long.
pub fn copy_region(source: &Surface, x: i32, y: i32, w: i32, h: i32) -> (r: Result<Surface, BlurError>)
    requires
        source@.wf(),
    ensures
        r is Ok <==> side_ok(w) && side_ok(h),
        r is Err ==> r == Err::<Surface, BlurError>(BlurError::InvalidSize),
        r matches Ok(s) ==> s@ == region_of(source@, x as int, y as int, w as int, h as int) && s@.wf(),
{
    if !(0 <= w && w <= MAX_SURFACE_SIDE && 0 <= h && h <= MAX_SURFACE_SIDE) {
        return Err(BlurError::InvalidSize);
    }
    let ghost src = source@;
    let ghost region = region_of(src, x as int, y as int, w as int, h as int);
    let width = w as usize;
    let height = h as usize;
    let sp = source.stride / 4;
    let mut data: Vec<u32> = Vec::new();
    let mut yy: usize = 0;
    while yy < height
        invariant
            src == source@,
            src.wf(),
            sp == src.row_pixels(),
            width == w,
            height == h,
            0 <= w <= MAX_SURFACE_SIDE,
            0 <= h <= MAX_SURFACE_SIDE,
            region == region_of(src, x as int, y as int, w as int, h as int),
            yy <= height,
            data.len() == yy * width,
            forall|j: int| 0 <= j < data.len() ==> #[trigger] data@[j] == region.pixels[j],
        decreases height - yy,
    {
        let mut xx: usize = 0;
        while xx < width
            invariant
                src == source@,
                src.wf(),
                sp == src.row_pixels(),
                width == w,
                height == h,
                0 <= w <= MAX_SURFACE_SIDE,
                0 <= h <= MAX_SURFACE_SIDE,
                region == region_of(src, x as int, y as int, w as int, h as int),
                yy < height,
                xx <= width,
                data.len() == yy * width + xx,
                forall|j: int| 0 <= j < data.len() ==> #[trigger] data@[j] == region.pixels[j],
            decreases width - xx,
        {
            let sx = x as i64 + xx as i64;
            let sy = y as i64 + yy as i64;
            let p: u32 = if 0 <= sx && sx < source.width as i64 && 0 <= sy && sy < source.height as i64 {
                let ux = sx as usize;
                let uy = sy as usize;
                assert(uy * sp + ux < src.pixels.len()) by (nonlinear_arith)
                    requires
                        uy < src.height,
                        ux < src.width,
                        src.width <= sp,
                        src.pixels.len() == sp * src.height,
                ;
                assert(source.data.len() == src.pixels.len());
                source.data[uy * sp + ux]
            } else {
                0
            };
            proof {
                let j = yy * width + xx;
                lemma_fundamental_div_mod_converse(j, width as int, yy as int, xx as int);
                assert(j < w * h) by (nonlinear_arith)
                    requires
                        j == yy * w + xx,
                        xx < w,
                        yy < h,
                ;
                assert(region.pixels[j] == p);
            }
            data.push(p);
            xx = xx + 1;
        }
        assert((yy + 1) * width == yy * width + width) by (nonlinear_arith);
        yy = yy + 1;
    }
    assert(data@ =~= region.pixels) by {
        assert(height * width == w * h) by (nonlinear_arith)
            requires
                height == h,
                width == w,
        ;
    }
    let r = Surface { width, height, stride: width * 4, data };
    assert(r@ == region);
    Ok(r)
}

/// Blurs the whole surface in place with the Gaussian kernel of `radius`.
pub fn apply_blur_in_place(surface: &mut Surface, radius: i32) -> (r: Result<(), BlurError>)
    requires
        old(surface)@.wf(),
    ensures
        r is Ok,
        final(surface)@ == (SurfaceView {
            pixels: blurred(
                old(surface)@.pixels,
                old(surface)@.width as int,
                old(surface)@.height as int,
                old(surface)@.row_pixels() as int,
                radius,
            ),
            ..old(surface)@
        }),
{
    let width = surface.width;
    let height = surface.height;
    let stride_px = surface.stride / 4;
    blur_pixels(&mut surface.data, width, height, stride_px, radius)
}

/// The `width * height` part of `source` from `(x, y)` on, blurred with the
/// Gaussian kernel of `radius`; a radius below 1 gives a plain copy.
pub fn blur_image_surface(source: &Surface, x: i32, y: i32, width: i32, height: i32, radius: i32) -> (r: Result<Surface, BlurError>)
    requires
        source@.wf(),
    ensures
        r is Ok <==> side_ok(width) && side_ok(height),
        r is Err ==> r == Err::<Surface, BlurError>(BlurError::InvalidSize),
        r matches Ok(s) ==> {
            let region = region_of(source@, x as int, y as int, width as int, height as int);
            &&& s@ == (SurfaceView {
                pixels: blurred(region.pixels, width as int, height as int, width as int, radius),
                ..region
            })
            &&& s@.wf()
        },
{
    let mut region = match copy_region(source, x, y, width, height) {
        Ok(s) => s,
        Err(e) => {
            return Err(e);
        },
    };
    if radius < 1 {
        return Ok(region);
    }
    match apply_blur_in_place(&mut region, radius) {
        Ok(()) => Ok(region),
        Err(e) => Err(e),
    }
}

} // verus!
