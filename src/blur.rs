use vstd::prelude::*;

use vstd::arithmetic::div_mod::{
    lemma_div_by_multiple, lemma_fundamental_div_mod, lemma_fundamental_div_mod_converse,
};

use crate::state::abs_int;

verus! {

/// Why a blur or a pixel buffer operation was refused.
#[derive(Debug, Clone, Copy, PartialEq, Eq, Structural)]
pub enum BlurError {
    /// A dimension is negative or beyond the largest surface side.
    InvalidSize,
    /// The row pitch is not a whole number of pixels, or is shorter than a row.
    MisalignedStride,
    /// The pixel data does not hold exactly `stride / 4 * height` pixels.
    BufferSize,
    /// The kernel weights add up to zero.
    ZeroKernelSum,
}

/// The byte of `p` that starts at bit `shift`.
pub open spec fn channel(p: u32, shift: u32) -> u32 {
    (p >> shift) & 0xffu32
}

/// Four channel bytes packed as A, R, G, B from the most significant byte down.
pub open spec fn pack(a: u32, r: u32, g: u32, b: u32) -> u32 {
    (a << 24u32) | (r << 16u32) | (g << 8u32) | b
}

pub open spec fn cap(v: u32, limit: u32) -> u32 {
    if v > limit {
        limit
    } else {
        v
    }
}

/// Packs with each colour channel capped at alpha, as premultiplied alpha requires.
pub open spec fn pack_premultiplied(a: u32, r: u32, g: u32, b: u32) -> u32 {
    pack(a, cap(r, a), cap(g, a), cap(b, a))
}

/// No colour channel of `p` exceeds its alpha.
pub open spec fn is_premultiplied(p: u32) -> bool {
    &&& channel(p, 16) <= channel(p, 24)
    &&& channel(p, 8) <= channel(p, 24)
    &&& channel(p, 0) <= channel(p, 24)
}

proof fn lemma_channel_bounds(p: u32)
    ensures
        channel(p, 24) <= 255,
        channel(p, 16) <= 255,
        channel(p, 8) <= 255,
        channel(p, 0) <= 255,
        channel(p, 0) == p & 0xffu32,
{
    assert((p >> 24u32) & 0xffu32 <= 255) by (bit_vector);
    assert((p >> 16u32) & 0xffu32 <= 255) by (bit_vector);
    assert((p >> 8u32) & 0xffu32 <= 255) by (bit_vector);
    assert((p >> 0u32) & 0xffu32 <= 255) by (bit_vector);
    assert((p >> 0u32) & 0xffu32 == p & 0xffu32) by (bit_vector);
}

/// Unpacking a packed pixel gives its channels back, and repacking the
/// channels of a pixel gives the pixel.
proof fn lemma_pack_channels(a: u32, r: u32, g: u32, b: u32, p: u32)
    requires
        a <= 255,
        r <= 255,
        g <= 255,
        b <= 255,
    ensures
        channel(pack(a, r, g, b), 24) == a,
        channel(pack(a, r, g, b), 16) == r,
        channel(pack(a, r, g, b), 8) == g,
        channel(pack(a, r, g, b), 0) == b,
        pack(channel(p, 24), channel(p, 16), channel(p, 8), channel(p, 0)) == p,
{
    assert(((((a << 24u32) | (r << 16u32) | (g << 8u32) | b) >> 24u32) & 0xffu32) == a) by (bit_vector)
        requires
            a <= 255,
            r <= 255,
            g <= 255,
            b <= 255,
    ;
    assert(((((a << 24u32) | (r << 16u32) | (g << 8u32) | b) >> 16u32) & 0xffu32) == r) by (bit_vector)
        requires
            a <= 255,
            r <= 255,
            g <= 255,
            b <= 255,
    ;
    assert(((((a << 24u32) | (r << 16u32) | (g << 8u32) | b) >> 8u32) & 0xffu32) == g) by (bit_vector)
        requires
            a <= 255,
            r <= 255,
            g <= 255,
            b <= 255,
    ;
    assert(((((a << 24u32) | (r << 16u32) | (g << 8u32) | b) >> 0u32) & 0xffu32) == b) by (bit_vector)
        requires
            a <= 255,
            r <= 255,
            g <= 255,
            b <= 255,
    ;
    assert(((((p >> 24u32) & 0xffu32) << 24u32) | (((p >> 16u32) & 0xffu32) << 16u32) | (((p
        >> 8u32) & 0xffu32) << 8u32) | ((p >> 0u32) & 0xffu32)) == p) by (bit_vector);
}

/// A pixel split into its four channels.
struct ARgb {
    a: u32,
    r: u32,
    g: u32,
    b: u32,
}

impl ARgb {
    fn from_u32(p: u32) -> (c: Self)
        ensures
            c.a == channel(p, 24),
            c.r == channel(p, 16),
            c.g == channel(p, 8),
            c.b == channel(p, 0),
            c.a <= 255 && c.r <= 255 && c.g <= 255 && c.b <= 255,
    {
        proof {
            lemma_channel_bounds(p);
        }
        Self { a: (p >> 24u32) & 0xff, r: (p >> 16u32) & 0xff, g: (p >> 8u32) & 0xff, b: p & 0xff }
    }

    fn to_u32(&self) -> (p: u32)
        ensures
            p == pack(self.a, self.r, self.g, self.b),
    {
        (self.a << 24u32) | (self.r << 16u32) | (self.g << 8u32) | self.b
    }
}

/// Weight of the tap `d` pixels from the centre in the kernel of half-width
/// `radius`: `round(1000 * exp(-d^2 / (2 * sigma^2)))` with `sigma = radius / 3`,
/// tabulated for the radii 1 to 8.
pub open spec fn gaussian_weight(radius: int, d: int) -> u32 {
    if 1 <= radius <= 8 && 0 <= d <= radius {
        weight_table(radius as u8, d as u8)
    } else {
        0
    }
}

pub open spec fn weight_table(radius: u8, d: u8) -> u32 {
    match (radius, d) {
        (1, 0) => 1000,
        (1, 1) => 11,
        (2, 0) => 1000,
        (2, 1) => 325,
        (2, 2) => 11,
        (3, 0) => 1000,
        (3, 1) => 607,
        (3, 2) => 135,
        (3, 3) => 11,
        (4, 0) => 1000,
        (4, 1) => 755,
        (4, 2) => 325,
        (4, 3) => 80,
        (4, 4) => 11,
        (5, 0) => 1000,
        (5, 1) => 835,
        (5, 2) => 487,
        (5, 3) => 198,
        (5, 4) => 56,
        (5, 5) => 11,
        (6, 0) => 1000,
        (6, 1) => 882,
        (6, 2) => 607,
        (6, 3) => 325,
        (6, 4) => 135,
        (6, 5) => 44,
        (6, 6) => 11,
        (7, 0) => 1000,
        (7, 1) => 912,
        (7, 2) => 693,
        (7, 3) => 438,
        (7, 4) => 230,
        (7, 5) => 101,
        (7, 6) => 37,
        (7, 7) => 11,
        (8, 0) => 1000,
        (8, 1) => 932,
        (8, 2) => 755,
        (8, 3) => 531,
        (8, 4) => 325,
        (8, 5) => 172,
        (8, 6) => 80,
        (8, 7) => 32,
        (8, 8) => 11,
        _ => 0,
    }
}

/// The radius that the kernel is built for: the requested one, kept in `[1, 8]`.
pub open spec fn clamped_radius(radius: i32) -> int {
    if radius < 1 {
        1
    } else if radius > 8 {
        8
    } else {
        radius as int
    }
}

/// The `2 * radius + 1` taps of the Gaussian kernel of half-width `radius`.
pub open spec fn gaussian_kernel(radius: int) -> Seq<u32> {
    Seq::new((2 * radius + 1) as nat, |i: int| gaussian_weight(radius, abs_int(i - radius)))
}

/// Sum of the first `n` weights of `k`.
pub open spec fn kernel_sum(k: Seq<u32>, n: int) -> int
    decreases n,
{
    if n <= 0 {
        0
    } else {
        kernel_sum(k, n - 1) + k[n - 1]
    }
}

pub open spec fn kernel_total(k: Seq<u32>) -> int {
    kernel_sum(k, k.len() as int)
}

/// A kernel that the passes take: an odd number of taps, at most 17, each
/// weight at most 1000, and a positive sum.
pub open spec fn kernel_ok(k: Seq<u32>) -> bool {
    &&& k.len() % 2 == 1
    &&& k.len() <= 17
    &&& forall|i: int| 0 <= i < k.len() ==> #[trigger] k[i] <= 1000
    &&& kernel_total(k) > 0
}

fn weight_at(radius: u32, d: u32) -> (w: u32)
    requires
        1 <= radius <= 8,
        d <= radius,
    ensures
        w == gaussian_weight(radius as int, d as int),
{
    match (radius, d) {
        (1, 0) => 1000,
        (1, 1) => 11,
        (2, 0) => 1000,
        (2, 1) => 325,
        (2, 2) => 11,
        (3, 0) => 1000,
        (3, 1) => 607,
        (3, 2) => 135,
        (3, 3) => 11,
        (4, 0) => 1000,
        (4, 1) => 755,
        (4, 2) => 325,
        (4, 3) => 80,
        (4, 4) => 11,
        (5, 0) => 1000,
        (5, 1) => 835,
        (5, 2) => 487,
        (5, 3) => 198,
        (5, 4) => 56,
        (5, 5) => 11,
        (6, 0) => 1000,
        (6, 1) => 882,
        (6, 2) => 607,
        (6, 3) => 325,
        (6, 4) => 135,
        (6, 5) => 44,
        (6, 6) => 11,
        (7, 0) => 1000,
        (7, 1) => 912,
        (7, 2) => 693,
        (7, 3) => 438,
        (7, 4) => 230,
        (7, 5) => 101,
        (7, 6) => 37,
        (7, 7) => 11,
        (8, 0) => 1000,
        (8, 1) => 932,
        (8, 2) => 755,
        (8, 3) => 531,
        (8, 4) => 325,
        (8, 5) => 172,
        (8, 6) => 80,
        (8, 7) => 32,
        (8, 8) => 11,
        _ => 0,
    }
}

/// The Gaussian kernel for `radius` (kept in `[1, 8]`) and the sum of its weights.
pub fn generate_gaussian_kernel(radius: i32) -> (res: Result<(Vec<u32>, u32), BlurError>)
    ensures
        res matches Ok((k, s)) && k@ == gaussian_kernel(clamped_radius(radius)) && s
            == kernel_total(k@) && kernel_ok(k@),
{
    let r: u32 = if radius < 1 {
        1
    } else if radius > 8 {
        8
    } else {
        radius as u32
    };
    let size: u32 = 2 * r + 1;
    let ghost full = gaussian_kernel(r as int);
    let mut kernel: Vec<u32> = Vec::new();
    let mut sum: u32 = 0;
    let mut i: u32 = 0;
    while i < size
        invariant
            1 <= r <= 8,
            size == 2 * r + 1,
            full == gaussian_kernel(r as int),
            i <= size,
            kernel@ =~= full.subrange(0, i as int),
            sum == kernel_sum(full, i as int),
            sum <= 1000 * i,
            i > r ==> sum >= 1000,
            forall|j: int| 0 <= j < i ==> #[trigger] full[j] <= 1000,
        decreases size - i,
    {
        let d: u32 = if i >= r {
            i - r
        } else {
            r - i
        };
        let w = weight_at(r, d);
        assert(w == full[i as int]);
        kernel.push(w);
        sum = sum + w;
        i = i + 1;
    }
    assert(kernel@ =~= full);
    if sum == 0 {
        return Err(BlurError::ZeroKernelSum);
    }
    Ok((kernel, sum))
}

/// `v` kept within `[0, n - 1]`: the edge pixel stands in for pixels beyond it.
pub open spec fn clamp_index(v: int, n: int) -> int {
    if v < 0 {
        0
    } else if v >= n {
        n - 1
    } else {
        v
    }
}

/// Weighted sum over the first `n` taps of one channel along a row that
/// starts at `row` and is `w` pixels wide, centred on column `x`.
pub open spec fn row_acc(src: Seq<u32>, row: int, w: int, x: int, k: Seq<u32>, shift: u32, n: int) -> int
    decreases n,
{
    if n <= 0 {
        0
    } else {
        row_acc(src, row, w, x, k, shift, n - 1) + k[n - 1] * channel(
            src[row + clamp_index(x + (n - 1) - k.len() / 2, w)],
            shift,
        )
    }
}

/// Weighted sum over the first `n` taps of one channel down column `x` of an
/// unpadded `w`-wide, `h`-high buffer, centred on row `y`.
pub open spec fn col_acc(tmp: Seq<u32>, w: int, h: int, x: int, y: int, k: Seq<u32>, shift: u32, n: int) -> int
    decreases n,
{
    if n <= 0 {
        0
    } else {
        col_acc(tmp, w, h, x, y, k, shift, n - 1) + k[n - 1] * channel(
            tmp[clamp_index(y + (n - 1) - k.len() / 2, h) * w + x],
            shift,
        )
    }
}

/// One pixel of the horizontal pass.
pub open spec fn h_pixel(src: Seq<u32>, row: int, w: int, x: int, k: Seq<u32>) -> u32 {
    let n = k.len() as int;
    let s = kernel_total(k);
    pack(
        (row_acc(src, row, w, x, k, 24, n) / s) as u32,
        (row_acc(src, row, w, x, k, 16, n) / s) as u32,
        (row_acc(src, row, w, x, k, 8, n) / s) as u32,
        (row_acc(src, row, w, x, k, 0, n) / s) as u32,
    )
}

/// One pixel of the vertical pass, colour capped at alpha.
pub open spec fn v_pixel(tmp: Seq<u32>, w: int, h: int, x: int, y: int, k: Seq<u32>) -> u32 {
    let n = k.len() as int;
    let s = kernel_total(k);
    pack_premultiplied(
        (col_acc(tmp, w, h, x, y, k, 24, n) / s) as u32,
        (col_acc(tmp, w, h, x, y, k, 16, n) / s) as u32,
        (col_acc(tmp, w, h, x, y, k, 8, n) / s) as u32,
        (col_acc(tmp, w, h, x, y, k, 0, n) / s) as u32,
    )
}

/// The unpadded `w * h` result of the horizontal pass over a buffer whose
/// rows are `sp` pixels apart.
pub open spec fn horizontal_pass(src: Seq<u32>, w: int, h: int, sp: int, k: Seq<u32>) -> Seq<u32> {
    Seq::new((w * h) as nat, |j: int| h_pixel(src, (j / w) * sp, w, j % w, k))
}

/// Both passes with kernel `k`; the padding at the end of each row is kept.
pub open spec fn blur_passes(src: Seq<u32>, w: int, h: int, sp: int, k: Seq<u32>) -> Seq<u32> {
    let tmp = horizontal_pass(src, w, h, sp, k);
    Seq::new(
        src.len(),
        |i: int|
            if i % sp < w {
                v_pixel(tmp, w, h, i % sp, i / sp, k)
            } else {
                src[i]
            },
    )
}

/// The buffer blurred with the Gaussian kernel of `radius`; a radius below 1,
/// or an empty buffer, leaves it as it is.
pub open spec fn blurred(src: Seq<u32>, w: int, h: int, sp: int, radius: i32) -> Seq<u32> {
    if radius < 1 || w == 0 || h == 0 {
        src
    } else {
        blur_passes(src, w, h, sp, gaussian_kernel(clamped_radius(radius)))
    }
}

/// `x + k - half` kept within `[0, width - 1]`, without leaving `usize`.
fn tap_index(x: usize, k: usize, half: usize, width: usize) -> (i: usize)
    requires
        x < width,
    ensures
        i == clamp_index(x + k - half, width as int),
{
    if k <= half {
        let back = half - k;
        if x < back {
            0
        } else {
            x - back
        }
    } else {
        let fwd = k - half;
        if fwd >= width - x {
            width - 1
        } else {
            x + fwd
        }
    }
}

proof fn lemma_tap_bound(acc: u32, c: u32, wk: u32, ks: int)
    requires
        c <= 255,
        wk <= 1000,
        acc <= 255 * ks,
    ensures
        acc + wk * c <= 255 * (ks + wk),
        wk * c <= 255000,
{
    assert(wk * c <= 255 * wk) by (nonlinear_arith)
        requires
            c <= 255,
    ;
}

proof fn lemma_average_bound(acc: int, s: int)
    requires
        0 <= acc <= 255 * s,
        s > 0,
    ensures
        0 <= acc / s <= 255,
{
    assert(acc / s <= 255) by (nonlinear_arith)
        requires
            0 <= acc <= 255 * s,
            s > 0,
    ;
    assert(acc / s >= 0) by (nonlinear_arith)
        requires
            0 <= acc,
            s > 0,
    ;
}

/// One pixel of the horizontal pass, for the row that starts at `row`.
fn horizontal_pixel(src: &Vec<u32>, row: usize, width: usize, x: usize, kernel: &Vec<u32>, ksum: u32) -> (p: u32)
    requires
        kernel_ok(kernel@),
        ksum == kernel_total(kernel@),
        x < width,
        row + width <= src.len(),
    ensures
        p == h_pixel(src@, row as int, width as int, x as int, kernel@),
{
    let half = kernel.len() / 2;
    let mut acc_a: u32 = 0;
    let mut acc_r: u32 = 0;
    let mut acc_g: u32 = 0;
    let mut acc_b: u32 = 0;
    let mut k: usize = 0;
    while k < kernel.len()
        invariant
            kernel_ok(kernel@),
            x < width,
            row + width <= src.len(),
            half == kernel.len() / 2,
            k <= kernel.len(),
            acc_a == row_acc(src@, row as int, width as int, x as int, kernel@, 24, k as int),
            acc_r == row_acc(src@, row as int, width as int, x as int, kernel@, 16, k as int),
            acc_g == row_acc(src@, row as int, width as int, x as int, kernel@, 8, k as int),
            acc_b == row_acc(src@, row as int, width as int, x as int, kernel@, 0, k as int),
            acc_a <= 255 * kernel_sum(kernel@, k as int),
            acc_r <= 255 * kernel_sum(kernel@, k as int),
            acc_g <= 255 * kernel_sum(kernel@, k as int),
            acc_b <= 255 * kernel_sum(kernel@, k as int),
            kernel_sum(kernel@, k as int) <= 1000 * k,
        decreases kernel.len() - k,
    {
        let sx = tap_index(x, k, half, width);
        let c = ARgb::from_u32(src[row + sx]);
        let wk = kernel[k];
        proof {
            let ks = kernel_sum(kernel@, k as int);
            lemma_tap_bound(acc_a, c.a, wk, ks);
            lemma_tap_bound(acc_r, c.r, wk, ks);
            lemma_tap_bound(acc_g, c.g, wk, ks);
            lemma_tap_bound(acc_b, c.b, wk, ks);
        }
        acc_a = acc_a + wk * c.a;
        acc_r = acc_r + wk * c.r;
        acc_g = acc_g + wk * c.g;
        acc_b = acc_b + wk * c.b;
        k = k + 1;
    }
    proof {
        lemma_average_bound(acc_a as int, ksum as int);
        lemma_average_bound(acc_r as int, ksum as int);
        lemma_average_bound(acc_g as int, ksum as int);
        lemma_average_bound(acc_b as int, ksum as int);
    }
    ARgb { a: acc_a / ksum, r: acc_r / ksum, g: acc_g / ksum, b: acc_b / ksum }.to_u32()
}

/// One pixel of the vertical pass over the unpadded `width * height` buffer.
fn vertical_pixel(
    tmp: &Vec<u32>,
    width: usize,
    height: usize,
    x: usize,
    y: usize,
    kernel: &Vec<u32>,
    ksum: u32,
) -> (p: u32)
    requires
        kernel_ok(kernel@),
        ksum == kernel_total(kernel@),
        x < width,
        y < height,
        tmp.len() == width * height,
    ensures
        p == v_pixel(tmp@, width as int, height as int, x as int, y as int, kernel@),
{
    let half = kernel.len() / 2;
    let mut acc_a: u32 = 0;
    let mut acc_r: u32 = 0;
    let mut acc_g: u32 = 0;
    let mut acc_b: u32 = 0;
    let mut k: usize = 0;
    while k < kernel.len()
        invariant
            kernel_ok(kernel@),
            x < width,
            y < height,
            tmp.len() == width * height,
            half == kernel.len() / 2,
            k <= kernel.len(),
            acc_a == col_acc(tmp@, width as int, height as int, x as int, y as int, kernel@, 24, k as int),
            acc_r == col_acc(tmp@, width as int, height as int, x as int, y as int, kernel@, 16, k as int),
            acc_g == col_acc(tmp@, width as int, height as int, x as int, y as int, kernel@, 8, k as int),
            acc_b == col_acc(tmp@, width as int, height as int, x as int, y as int, kernel@, 0, k as int),
            acc_a <= 255 * kernel_sum(kernel@, k as int),
            acc_r <= 255 * kernel_sum(kernel@, k as int),
            acc_g <= 255 * kernel_sum(kernel@, k as int),
            acc_b <= 255 * kernel_sum(kernel@, k as int),
            kernel_sum(kernel@, k as int) <= 1000 * k,
        decreases kernel.len() - k,
    {
        let sy = tap_index(y, k, half, height);
        assert(sy * width + x < width * height) by (nonlinear_arith)
            requires
                sy < height,
                x < width,
        ;
        let c = ARgb::from_u32(tmp[sy * width + x]);
        let wk = kernel[k];
        proof {
            let ks = kernel_sum(kernel@, k as int);
            lemma_tap_bound(acc_a, c.a, wk, ks);
            lemma_tap_bound(acc_r, c.r, wk, ks);
            lemma_tap_bound(acc_g, c.g, wk, ks);
            lemma_tap_bound(acc_b, c.b, wk, ks);
        }
        acc_a = acc_a + wk * c.a;
        acc_r = acc_r + wk * c.r;
        acc_g = acc_g + wk * c.g;
        acc_b = acc_b + wk * c.b;
        k = k + 1;
    }
    proof {
        lemma_average_bound(acc_a as int, ksum as int);
        lemma_average_bound(acc_r as int, ksum as int);
        lemma_average_bound(acc_g as int, ksum as int);
        lemma_average_bound(acc_b as int, ksum as int);
    }
    let a = acc_a / ksum;
    let r = if acc_r / ksum > a {
        a
    } else {
        acc_r / ksum
    };
    let g = if acc_g / ksum > a {
        a
    } else {
        acc_g / ksum
    };
    let b = if acc_b / ksum > a {
        a
    } else {
        acc_b / ksum
    };
    ARgb { a, r, g, b }.to_u32()
}

/// Runs the horizontal pass into an unpadded buffer, then the vertical pass
/// back into `data`, whose rows are `stride_px` pixels apart.
fn blur_passes_in_place(
    data: &mut Vec<u32>,
    width: usize,
    height: usize,
    stride_px: usize,
    kernel: &Vec<u32>,
    ksum: u32,
)
    requires
        old(data).len() == stride_px * height,
        0 < width <= stride_px,
        0 < height,
        kernel_ok(kernel@),
        ksum == kernel_total(kernel@),
    ensures
        final(data)@ == blur_passes(old(data)@, width as int, height as int, stride_px as int, kernel@),
{
    let ghost src = data@;
    let ghost w = width as int;
    let ghost h = height as int;
    let ghost sp = stride_px as int;
    let ghost tmp = horizontal_pass(src, w, h, sp, kernel@);

    let mut temp: Vec<u32> = Vec::new();
    let mut y: usize = 0;
    while y < height
        invariant
            data@ == src,
            src.len() == sp * h,
            0 < w <= sp,
            w == width,
            h == height,
            sp == stride_px,
            kernel_ok(kernel@),
            ksum == kernel_total(kernel@),
            tmp == horizontal_pass(src, w, h, sp, kernel@),
            y <= height,
            temp.len() == y * w,
            forall|j: int| 0 <= j < temp.len() ==> #[trigger] temp@[j] == tmp[j],
        decreases height - y,
    {
        assert(y * sp + w <= h * sp) by (nonlinear_arith)
            requires
                y < h,
                0 < w <= sp,
        ;
        assert(data.len() == src.len());
        let row = y * stride_px;
        let mut x: usize = 0;
        while x < width
            invariant
                data@ == src,
                src.len() == sp * h,
                0 < w <= sp,
                w == width,
                h == height,
                sp == stride_px,
                kernel_ok(kernel@),
                ksum == kernel_total(kernel@),
                tmp == horizontal_pass(src, w, h, sp, kernel@),
                y < height,
                row == y * sp,
                row + w <= src.len(),
                x <= width,
                temp.len() == y * w + x,
                forall|j: int| 0 <= j < temp.len() ==> #[trigger] temp@[j] == tmp[j],
            decreases width - x,
        {
            let p = horizontal_pixel(data, row, width, x, kernel, ksum);
            proof {
                let j = y * w + x;
                lemma_fundamental_div_mod_converse(j, w, y as int, x as int);
                assert(j < w * h) by (nonlinear_arith)
                    requires
                        j == y * w + x,
                        x < w,
                        y < h,
                ;
                assert(tmp[j] == p);
            }
            temp.push(p);
            x = x + 1;
        }
        assert((y + 1) * w == y * w + w) by (nonlinear_arith);
        y = y + 1;
    }
    assert(temp@ =~= tmp) by {
        assert(height * w == w * h) by (nonlinear_arith)
            requires
                h == height,
        ;
    }

    let mut y: usize = 0;
    while y < height
        invariant
            data.len() == src.len(),
            src.len() == sp * h,
            0 < w <= sp,
            w == width,
            h == height,
            sp == stride_px,
            kernel_ok(kernel@),
            ksum == kernel_total(kernel@),
            temp@ == tmp,
            temp.len() == w * h,
            y <= height,
            forall|i: int|
                0 <= i < src.len() ==> #[trigger] data@[i] == if i < y * sp && i % sp < w {
                    v_pixel(tmp, w, h, i % sp, i / sp, kernel@)
                } else {
                    src[i]
                },
        decreases height - y,
    {
        assert(y * sp + sp <= h * sp) by (nonlinear_arith)
            requires
                y < h,
                0 < sp,
        ;
        let row = y * stride_px;
        let mut x: usize = 0;
        while x < width
            invariant
                data.len() == src.len(),
                src.len() == sp * h,
                0 < w <= sp,
                w == width,
                h == height,
                sp == stride_px,
                kernel_ok(kernel@),
                ksum == kernel_total(kernel@),
                temp@ == tmp,
                temp.len() == w * h,
                y < height,
                row == y * sp,
                row + sp <= src.len(),
                x <= width,
                forall|i: int|
                    0 <= i < src.len() ==> #[trigger] data@[i] == if i < row + x && i % sp < w {
                        v_pixel(tmp, w, h, i % sp, i / sp, kernel@)
                    } else {
                        src[i]
                    },
            decreases width - x,
        {
            let p = vertical_pixel(&temp, width, height, x, y, kernel, ksum);
            let idx = row + x;
            proof {
                lemma_fundamental_div_mod_converse(idx as int, sp, y as int, x as int);
            }
            data.set(idx, p);
            x = x + 1;
        }
        proof {
            assert forall|i: int| row + w <= i < row + sp implies #[trigger] (i % sp) >= w by {
                lemma_fundamental_div_mod_converse(i, sp, y as int, i - row);
            }
            assert((y + 1) * sp == row + sp) by (nonlinear_arith)
                requires
                    row == y * sp,
            ;
        }
        y = y + 1;
    }
    assert(data@ =~= blur_passes(src, w, h, sp, kernel@));
}

/// Blurs the `width * height` pixels of `data`, whose rows are `stride_px`
/// pixels apart, with the Gaussian kernel of `radius`.
pub fn blur_pixels(data: &mut Vec<u32>, width: usize, height: usize, stride_px: usize, radius: i32) -> (r: Result<(), BlurError>)
    requires
        old(data).len() == stride_px * height,
        width <= stride_px,
    ensures
        r is Ok,
        final(data)@ == blurred(old(data)@, width as int, height as int, stride_px as int, radius),
{
    if radius < 1 || width == 0 || height == 0 {
        return Ok(());
    }
    let (kernel, ksum) = match generate_gaussian_kernel(radius) {
        Ok(k) => k,
        Err(e) => {
            return Err(e);
        },
    };
    blur_passes_in_place(data, width, height, stride_px, &kernel, ksum);
    Ok(())
}

/// A radius below 1 leaves the buffer exactly as it was.
pub proof fn lemma_blur_identity(src: Seq<u32>, w: int, h: int, sp: int, radius: i32)
    requires
        radius < 1,
    ensures
        blurred(src, w, h, sp, radius) == src,
{
}

proof fn lemma_kernel_sum_nonneg(k: Seq<u32>, n: int)
    ensures
        kernel_sum(k, n) >= 0,
    decreases n,
{
    if n > 0 {
        lemma_kernel_sum_nonneg(k, n - 1);
    }
}

proof fn lemma_kernel_sum_at_least(k: Seq<u32>, n: int, j: int)
    requires
        0 <= j < n,
    ensures
        kernel_sum(k, n) >= k[j],
    decreases n,
{
    if n - 1 == j {
        lemma_kernel_sum_nonneg(k, n - 1);
    } else {
        lemma_kernel_sum_at_least(k, n - 1, j);
    }
}

proof fn lemma_gaussian_total_positive(r: int)
    requires
        1 <= r <= 8,
    ensures
        kernel_total(gaussian_kernel(r)) > 0,
{
    let k = gaussian_kernel(r);
    assert(k[r] == 1000);
    lemma_kernel_sum_at_least(k, k.len() as int, r);
}

proof fn lemma_row_acc_flat(src: Seq<u32>, row: int, w: int, x: int, k: Seq<u32>, shift: u32, n: int, c: u32)
    requires
        0 < w,
        0 <= row,
        row + w <= src.len(),
        0 <= n <= k.len(),
        forall|i: int| row <= i < row + w ==> #[trigger] src[i] == c,
    ensures
        row_acc(src, row, w, x, k, shift, n) == channel(c, shift) * kernel_sum(k, n),
    decreases n,
{
    if n > 0 {
        lemma_row_acc_flat(src, row, w, x, k, shift, n - 1, c);
        let idx = row + clamp_index(x + (n - 1) - k.len() / 2, w);
        assert(src[idx] == c);
        let ch = channel(c, shift) as int;
        let ks = kernel_sum(k, n - 1);
        let kn = k[n - 1] as int;
        assert(ch * ks + kn * ch == ch * (ks + kn)) by (nonlinear_arith);
    }
}

proof fn lemma_col_acc_flat(tmp: Seq<u32>, w: int, h: int, x: int, y: int, k: Seq<u32>, shift: u32, n: int, c: u32)
    requires
        0 <= x < w,
        0 < h,
        tmp.len() == w * h,
        0 <= n <= k.len(),
        forall|j: int| 0 <= j < tmp.len() ==> #[trigger] tmp[j] == c,
    ensures
        col_acc(tmp, w, h, x, y, k, shift, n) == channel(c, shift) * kernel_sum(k, n),
    decreases n,
{
    if n > 0 {
        lemma_col_acc_flat(tmp, w, h, x, y, k, shift, n - 1, c);
        let cy = clamp_index(y + (n - 1) - k.len() / 2, h);
        assert(cy * w + x < w * h) by (nonlinear_arith)
            requires
                0 <= cy < h,
                0 <= x < w,
        ;
        assert(0 <= cy * w + x) by (nonlinear_arith)
            requires
                0 <= cy,
                0 <= x < w,
        ;
        assert(tmp[cy * w + x] == c);
        let ch = channel(c, shift) as int;
        let ks = kernel_sum(k, n - 1);
        let kn = k[n - 1] as int;
        assert(ch * ks + kn * ch == ch * (ks + kn)) by (nonlinear_arith);
    }
}

/// Averages of one colour give that colour back, channel by channel.
proof fn lemma_channel_averages(c: u32, s: int)
    requires
        s > 0,
    ensures
        (channel(c, 24) * s) / s == channel(c, 24),
        (channel(c, 16) * s) / s == channel(c, 16),
        (channel(c, 8) * s) / s == channel(c, 8),
        (channel(c, 0) * s) / s == channel(c, 0),
        pack(channel(c, 24), channel(c, 16), channel(c, 8), channel(c, 0)) == c,
{
    lemma_channel_bounds(c);
    lemma_div_by_multiple(channel(c, 24) as int, s);
    lemma_div_by_multiple(channel(c, 16) as int, s);
    lemma_div_by_multiple(channel(c, 8) as int, s);
    lemma_div_by_multiple(channel(c, 0) as int, s);
    lemma_pack_channels(0, 0, 0, 0, c);
}

/// Blurring a buffer whose pixels all hold one premultiplied colour, with
/// any radius, gives back that colour at every pixel: the rounding of the
/// weighted averages loses nothing on a flat input. Row padding is not read.
pub proof fn lemma_blur_flat(src: Seq<u32>, w: int, h: int, sp: int, radius: i32, color: u32)
    requires
        0 <= w <= sp,
        0 <= h,
        src.len() == sp * h,
        is_premultiplied(color),
        forall|i: int| 0 <= i < src.len() && #[trigger] (i % sp) < w ==> src[i] == color,
    ensures
        forall|i: int|
            0 <= i < src.len() && #[trigger] (i % sp) < w ==> blurred(src, w, h, sp, radius)[i] == color,
{
    if radius < 1 || w == 0 || h == 0 {
        return;
    }
    let r = clamped_radius(radius);
    let k = gaussian_kernel(r);
    let n = k.len() as int;
    let s = kernel_total(k);
    lemma_gaussian_total_positive(r);
    lemma_channel_averages(color, s);
    let tmp = horizontal_pass(src, w, h, sp, k);
    assert forall|j: int| 0 <= j < tmp.len() implies #[trigger] tmp[j] == color by {
        lemma_fundamental_div_mod(j, w);
        let q = j / w;
        let x = j % w;
        assert(0 <= x < w);
        assert(0 <= q < h) by (nonlinear_arith)
            requires
                j == w * q + x,
                0 <= x < w,
                0 <= j < w * h,
        ;
        assert(q * sp + w <= src.len()) by (nonlinear_arith)
            requires
                0 <= q < h,
                w <= sp,
                src.len() == sp * h,
        ;
        assert(0 <= q * sp) by (nonlinear_arith)
            requires
                0 <= q,
                0 <= sp,
        ;
        assert forall|i: int| q * sp <= i < q * sp + w implies #[trigger] src[i] == color by {
            lemma_fundamental_div_mod_converse(i, sp, q, i - q * sp);
        }
        lemma_row_acc_flat(src, q * sp, w, x, k, 24, n, color);
        lemma_row_acc_flat(src, q * sp, w, x, k, 16, n, color);
        lemma_row_acc_flat(src, q * sp, w, x, k, 8, n, color);
        lemma_row_acc_flat(src, q * sp, w, x, k, 0, n, color);
    }
    assert forall|i: int| 0 <= i < src.len() && #[trigger] (i % sp) < w implies blurred(src, w, h, sp, radius)[i]
        == color by {
        let x = i % sp;
        if x < w {
            assert(0 <= x);
            lemma_col_acc_flat(tmp, w, h, x, i / sp, k, 24, n, color);
            lemma_col_acc_flat(tmp, w, h, x, i / sp, k, 16, n, color);
            lemma_col_acc_flat(tmp, w, h, x, i / sp, k, 8, n, color);
            lemma_col_acc_flat(tmp, w, h, x, i / sp, k, 0, n, color);
        }
    }
}

} // verus!
