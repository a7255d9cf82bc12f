//! Pixel-format normalization.
//!
//! Every camera frame is converted into one canonical form - an
//! interleaved RGB byte buffer - before it is handed to the detection
//! engine.  RGB input passes through unchanged; RGBA and BGRA drop or
//! reorder one channel per pixel; YUV420 and NV21 carry chroma at a
//! quarter of the luma resolution and are expanded with the standard
//! YUV-to-RGB conversion, computed here in thousandths so that it is
//! exact integer arithmetic.
//!
//! Buffers shorter than the declared format requires are rejected, never
//! silently truncated.  For the subsampled formats the chroma plane of a
//! frame with an odd width or height can end short of the last sample the
//! index formula reaches; such a layout is reported as a conversion
//! error rather than read out of bounds.

use vstd::arithmetic::div_mod::{
    lemma_div_is_ordered, lemma_div_multiples_vanish, lemma_div_pos_is_pos,
    lemma_fundamental_div_mod, lemma_fundamental_div_mod_converse, lemma_hoist_over_denominator,
    lemma_multiply_divide_lt,
};
use vstd::arithmetic::mul::{
    lemma_mul_by_zero_is_zero, lemma_mul_inequality, lemma_mul_is_associative,
    lemma_mul_is_commutative,
};
use vstd::prelude::*;

use crate::models::{CameraFrame, CameraFrameView, ImageFormat, PluginError};

verus! {

/// Canonical interleaved RGB image.
#[derive(Debug, Clone)]
pub struct NormalizedImage {
    /// RGB bytes, three per pixel.
    pub data: Vec<u8>,
    /// Image width in pixels.
    pub width: u32,
    /// Image height in pixels.
    pub height: u32,
}

/// Mathematical model of a normalized image.
pub struct NormalizedImageView {
    pub data: Seq<u8>,
    pub width: u32,
    pub height: u32,
}

impl View for NormalizedImage {
    type V = NormalizedImageView;

    open spec fn view(&self) -> NormalizedImageView {
        NormalizedImageView { data: self.data@, width: self.width, height: self.height }
    }
}

impl NormalizedImage {
    /// A normalized image holds exactly three bytes per pixel.
    pub open spec fn wf(self) -> bool {
        self.data@.len() == 3 * self.width * self.height
    }
}

/// The least buffer length the declared format requires: three bytes per
/// pixel for RGB, four for RGBA and BGRA, and one and a half (rounded
/// down over the whole frame) for the chroma-subsampled formats.
pub open spec fn expected_len(format: ImageFormat, width: int, height: int) -> int {
    match format {
        ImageFormat::RGB => 3 * width * height,
        ImageFormat::RGBA => 4 * width * height,
        ImageFormat::BGRA => 4 * width * height,
        ImageFormat::YUV420 => (3 * (width * height)) / 2,
        ImageFormat::NV21 => (3 * (width * height)) / 2,
    }
}

/// A frame is valid when both dimensions are positive and the buffer is
/// at least as long as the declared format requires.  (A positive
/// expected length rules out an empty buffer.)
pub open spec fn frame_valid(frame: CameraFrameView) -> bool {
    &&& frame.width > 0
    &&& frame.height > 0
    &&& frame.image_data.len() >= expected_len(frame.format, frame.width as int, frame.height as int)
}

/// Decide `frame_valid` executably.
///
/// All size arithmetic is carried out in 64 bits; `width * height` of two
/// 32-bit values cannot overflow there, and the comparisons against the
/// three-, four- and one-and-a-half-byte-per-pixel thresholds are phrased
/// as divisions and subtractions so that they cannot overflow either.
pub fn frame_size_ok(frame: &CameraFrame) -> (r: bool)
    ensures
        r == frame_valid(frame@),
{
    if frame.width == 0 || frame.height == 0 {
        return false;
    }
    let w: u64 = frame.width as u64;
    let h: u64 = frame.height as u64;
    proof {
        lemma_mul_inequality(w as int, 0xffff_ffff, h as int);
    }
    let wh: u64 = w * h;
    let len: u64 = frame.image_data.len() as u64;
    let ghost l: int = len as int;
    let ghost p: int = wh as int;
    match frame.format {
        ImageFormat::RGB => {
            proof {
                lemma_mul_is_associative(3, w as int, h as int);
                lemma_div_3_bound(l, p);
            }
            len / 3 >= wh
        },
        ImageFormat::RGBA | ImageFormat::BGRA => {
            proof {
                lemma_mul_is_associative(4, w as int, h as int);
                lemma_div_4_bound(l, p);
            }
            len / 4 >= wh
        },
        ImageFormat::YUV420 | ImageFormat::NV21 => {
            proof {
                lemma_three_halves(p);
            }
            wh <= len && len - wh >= wh / 2
        },
    }
}

/// `l / 3 >= p` decides `l >= 3 * p` (for nonnegative `l`, `p`).
proof fn lemma_div_3_bound(l: int, p: int)
    requires
        0 <= l,
        0 <= p,
    ensures
        (l / 3 >= p) <==> (l >= 3 * p),
{
    lemma_fundamental_div_mod(l, 3);
    if l >= 3 * p {
        lemma_div_is_ordered(3 * p, l, 3);
        lemma_fundamental_div_mod_converse(3 * p, 3, p, 0);
    }
}

/// `l / 4 >= p` decides `l >= 4 * p` (for nonnegative `l`, `p`).
proof fn lemma_div_4_bound(l: int, p: int)
    requires
        0 <= l,
        0 <= p,
    ensures
        (l / 4 >= p) <==> (l >= 4 * p),
{
    lemma_fundamental_div_mod(l, 4);
    if l >= 4 * p {
        lemma_div_is_ordered(4 * p, l, 4);
        lemma_fundamental_div_mod_converse(4 * p, 4, p, 0);
    }
}

/// `(3 * p) / 2 == p + p / 2` for nonnegative `p`.
proof fn lemma_three_halves(p: int)
    requires
        0 <= p,
    ensures
        (3 * p) / 2 == p + p / 2,
{
    lemma_hoist_over_denominator(p, p, 2);
    assert(p + 2 * p == 3 * p);
}

/// Clamp a channel value held in thousandths into the displayable range
/// `0..=255000`.
pub open spec fn clamp_millis(v: int) -> int {
    if v < 0 {
        0
    } else if v > 255000 {
        255000
    } else {
        v
    }
}

/// The red channel of the YUV conversion: `clamp(y + 1.402 v)`, in
/// thousandths.  `y` is the luma byte; `v` is the signed chroma sample.
pub open spec fn yuv_red(y: int, v: int) -> int {
    clamp_millis(1000 * y + 1402 * v) / 1000
}

/// The green channel of the YUV conversion: `clamp(y - 0.344 u - 0.714 v)`.
pub open spec fn yuv_green(y: int, u: int, v: int) -> int {
    clamp_millis(1000 * y - 344 * u - 714 * v) / 1000
}

/// The blue channel of the YUV conversion: `clamp(y + 1.772 u)`.
pub open spec fn yuv_blue(y: int, u: int) -> int {
    clamp_millis(1000 * y + 1772 * u) / 1000
}

/// Divide a clamped thousandth-scaled channel back down to a byte.
fn clamp_div(s: i64) -> (r: u8)
    requires
        -1_000_000 <= s <= 1_000_000,
    ensures
        r as int == clamp_millis(s as int) / 1000,
{
    let c: i64 = if s < 0 {
        0
    } else if s > 255000 {
        255000
    } else {
        s
    };
    proof {
        lemma_div_pos_is_pos(c as int, 1000);
        lemma_div_is_ordered(c as int, 255000, 1000);
    }
    let q: i64 = c / 1000;
    q as u8
}

/// The full YUV-to-RGB conversion of one pixel.
fn yuv_rgb_triple(yv: u8, u: i64, v: i64) -> (rgb: (u8, u8, u8))
    requires
        -128 <= u <= 127,
        -128 <= v <= 127,
    ensures
        rgb.0 as int == yuv_red(yv as int, v as int),
        rgb.1 as int == yuv_green(yv as int, u as int, v as int),
        rgb.2 as int == yuv_blue(yv as int, u as int),
{
    let y1000: i64 = 1000 * (yv as i64);
    let rs: i64 = y1000 + 1402 * v;
    let gs: i64 = y1000 - 344 * u - 714 * v;
    let bs: i64 = y1000 + 1772 * u;
    (clamp_div(rs), clamp_div(gs), clamp_div(bs))
}

/// Indices of the flat RGB output: byte `3 p + c` belongs to pixel `p`,
/// channel `c`.
proof fn lemma_flat_index(p: int)
    requires
        0 <= p,
    ensures
        (3 * p) / 3 == p && (3 * p) % 3 == 0,
        (3 * p + 1) / 3 == p && (3 * p + 1) % 3 == 1,
        (3 * p + 2) / 3 == p && (3 * p + 2) % 3 == 2,
{
    lemma_fundamental_div_mod_converse(3 * p, 3, p, 0);
    lemma_fundamental_div_mod_converse(3 * p + 1, 3, p, 1);
    lemma_fundamental_div_mod_converse(3 * p + 2, 3, p, 2);
}

/// Output byte `i` for RGBA input: channel `i % 3` of the four-byte
/// pixel `i / 3`.
pub open spec fn rgba_byte(data: Seq<u8>, i: int) -> u8 {
    data[4 * (i / 3) + i % 3]
}

/// Output byte `i` for BGRA input: as RGBA, but the red and blue
/// channels trade places.
pub open spec fn bgra_byte(data: Seq<u8>, i: int) -> u8 {
    data[4 * (i / 3) + (2 - i % 3)]
}

/// The signed chroma samples a YUV420 frame stores for pixel `(x, y)`:
/// both quarter-resolution planes are indexed by `(y/2) * (w/2) + x/2`,
/// the U plane starting at `wh` and the V plane at `wh + wh/4`.
pub open spec fn yuv420_sample_u(data: Seq<u8>, w: int, wh: int, x: int, y: int) -> int {
    data[wh + (y / 2) * (w / 2) + x / 2] - 128
}

pub open spec fn yuv420_sample_v(data: Seq<u8>, w: int, wh: int, x: int, y: int) -> int {
    data[wh + wh / 4 + (y / 2) * (w / 2) + x / 2] - 128
}

/// Output byte `i` for YUV420 input.
pub open spec fn yuv420_byte(data: Seq<u8>, w: int, h: int, i: int) -> int {
    let p = i / 3;
    let c = i % 3;
    let x = p % w;
    let y = p / w;
    let wh = w * h;
    let yy = data[p] as int;
    let u = yuv420_sample_u(data, w, wh, x, y);
    let v = yuv420_sample_v(data, w, wh, x, y);
    if c == 0 {
        yuv_red(yy, v)
    } else if c == 1 {
        yuv_green(yy, u, v)
    } else {
        yuv_blue(yy, u)
    }
}

/// Base offset of the interleaved VU pair an NV21 frame stores for pixel
/// `(x, y)`: V at `wh + (y/2) * w + 2 * (x/2)`, U in the following byte.
pub open spec fn nv21_base(w: int, wh: int, x: int, y: int) -> int {
    wh + (y / 2) * w + 2 * (x / 2)
}

/// Output byte `i` for NV21 input.
pub open spec fn nv21_byte(data: Seq<u8>, w: int, h: int, i: int) -> int {
    let p = i / 3;
    let c = i % 3;
    let x = p % w;
    let y = p / w;
    let wh = w * h;
    let yy = data[p] as int;
    let v = data[nv21_base(w, wh, x, y)] - 128;
    let u = data[nv21_base(w, wh, x, y) + 1] - 128;
    if c == 0 {
        yuv_red(yy, v)
    } else if c == 1 {
        yuv_green(yy, u, v)
    } else {
        yuv_blue(yy, u)
    }
}

/// The largest chroma-plane offset the YUV420 index formula reaches over
/// a `w` by `h` frame.
pub open spec fn yuv420_max_uv(w: int, h: int) -> int {
    ((h - 1) / 2) * (w / 2) + (w - 1) / 2
}

/// The buffer covers every chroma sample the YUV420 formula reads.
pub open spec fn yuv420_reads_ok(len: int, w: int, h: int) -> bool {
    w <= 0 || h <= 0 || len >= w * h + (w * h) / 4 + yuv420_max_uv(w, h) + 1
}

/// The buffer covers every VU pair the NV21 formula reads.
pub open spec fn nv21_reads_ok(len: int, w: int, h: int) -> bool {
    w <= 0 || h <= 0 || len >= w * h + ((h - 1) / 2) * w + 2 * ((w - 1) / 2) + 2
}

/// For the chroma-subsampled formats, the chroma layout must cover every
/// sample the index formulas reach; the other formats have no chroma.
pub open spec fn chroma_ok(frame: CameraFrameView) -> bool {
    match frame.format {
        ImageFormat::YUV420 => yuv420_reads_ok(
            frame.image_data.len() as int,
            frame.width as int,
            frame.height as int,
        ),
        ImageFormat::NV21 => nv21_reads_ok(
            frame.image_data.len() as int,
            frame.width as int,
            frame.height as int,
        ),
        _ => true,
    }
}

/// Pixel `p` of a `w` by `h` frame sits at `(x, y) = (p % w, p / w)`, and
/// its chroma offsets stay at or below the frame-wide maxima.
proof fn lemma_pixel_coords(w: int, h: int, p: int)
    requires
        0 < w,
        0 < h,
        0 <= p < w * h,
    ensures
        ({
            let x = p % w;
            let y = p / w;
            &&& 0 <= x < w
            &&& 0 <= y < h
            &&& p == y * w + x
            &&& 0 <= x / 2 <= (w - 1) / 2
            &&& 0 <= y / 2 <= (h - 1) / 2
            &&& 0 <= (y / 2) * (w / 2) + x / 2 <= yuv420_max_uv(w, h)
            &&& 0 <= (y / 2) * w + 2 * (x / 2) <= ((h - 1) / 2) * w + 2 * ((w - 1) / 2)
        }),
{
    let x = p % w;
    let y = p / w;
    lemma_fundamental_div_mod(p, w);
    lemma_multiply_divide_lt(p, w, h);
    lemma_div_pos_is_pos(p, w);
    lemma_div_is_ordered(x, w - 1, 2);
    lemma_div_is_ordered(y, h - 1, 2);
    lemma_div_pos_is_pos(x, 2);
    lemma_div_pos_is_pos(y, 2);
    lemma_div_pos_is_pos(w, 2);
    lemma_mul_inequality(y / 2, (h - 1) / 2, w / 2);
    lemma_mul_inequality(y / 2, (h - 1) / 2, w);
}

/// Drop the alpha channel of an RGBA buffer, pixel by pixel.
pub fn rgba_to_rgb(data: &Vec<u8>, width: u32, height: u32) -> (r: Result<Vec<u8>, PluginError>)
    ensures
        ({
            let wh = (width as int) * (height as int);
            let len = data@.len() as int;
            match r {
                Ok(out) => {
                    &&& len >= 4 * wh
                    &&& out@.len() == 3 * wh
                    &&& forall|i: int| 0 <= i < 3 * wh ==> out@[i] == rgba_byte(data@, i)
                },
                Err(e) => e == PluginError::FrameValidationError && len < 4 * wh,
            }
        }),
{
    let w64: u64 = width as u64;
    let h64: u64 = height as u64;
    proof {
        lemma_mul_inequality(w64 as int, 0xffff_ffff, h64 as int);
    }
    let wh64: u64 = w64 * h64;
    let len64: u64 = data.len() as u64;
    proof {
        lemma_mul_is_associative(4, w64 as int, h64 as int);
        lemma_div_4_bound(len64 as int, wh64 as int);
    }
    if len64 / 4 < wh64 {
        return Err(PluginError::FrameValidationError);
    }
    let wh: usize = wh64 as usize;
    let mut out: Vec<u8> = Vec::new();
    let mut p: usize = 0;
    while p < wh
        invariant
            p <= wh,
            wh == (width as int) * (height as int),
            data@.len() >= 4 * wh,
            data@.len() <= usize::MAX,
            out@.len() == 3 * p,
            forall|i: int| 0 <= i < 3 * p ==> out@[i] == rgba_byte(data@, i),
        decreases wh - p,
    {
        let base: usize = 4 * p;
        out.push(data[base]);
        out.push(data[base + 1]);
        out.push(data[base + 2]);
        proof {
            lemma_flat_index(p as int);
        }
        p = p + 1;
    }
    Ok(out)
}

/// Reorder a BGRA buffer into RGB: the red and blue channels trade
/// places and the alpha channel is dropped.
pub fn bgra_to_rgb(data: &Vec<u8>, width: u32, height: u32) -> (r: Result<Vec<u8>, PluginError>)
    ensures
        ({
            let wh = (width as int) * (height as int);
            let len = data@.len() as int;
            match r {
                Ok(out) => {
                    &&& len >= 4 * wh
                    &&& out@.len() == 3 * wh
                    &&& forall|i: int| 0 <= i < 3 * wh ==> out@[i] == bgra_byte(data@, i)
                },
                Err(e) => e == PluginError::FrameValidationError && len < 4 * wh,
            }
        }),
{
    let w64: u64 = width as u64;
    let h64: u64 = height as u64;
    proof {
        lemma_mul_inequality(w64 as int, 0xffff_ffff, h64 as int);
    }
    let wh64: u64 = w64 * h64;
    let len64: u64 = data.len() as u64;
    proof {
        lemma_mul_is_associative(4, w64 as int, h64 as int);
        lemma_div_4_bound(len64 as int, wh64 as int);
    }
    if len64 / 4 < wh64 {
        return Err(PluginError::FrameValidationError);
    }
    let wh: usize = wh64 as usize;
    let mut out: Vec<u8> = Vec::new();
    let mut p: usize = 0;
    while p < wh
        invariant
            p <= wh,
            wh == (width as int) * (height as int),
            data@.len() >= 4 * wh,
            data@.len() <= usize::MAX,
            out@.len() == 3 * p,
            forall|i: int| 0 <= i < 3 * p ==> out@[i] == bgra_byte(data@, i),
        decreases wh - p,
    {
        let base: usize = 4 * p;
        out.push(data[base + 2]);
        out.push(data[base + 1]);
        out.push(data[base]);
        proof {
            lemma_flat_index(p as int);
        }
        p = p + 1;
    }
    Ok(out)
}

/// Expand a planar YUV420 buffer into RGB.
///
/// The buffer must hold the full luma plane and two quarter-size chroma
/// planes; a shorter buffer is a validation error.  A buffer that meets
/// those plane sizes but still ends before the last chroma sample the
/// index formula reaches (possible when a dimension is odd) is a
/// conversion error.
pub fn yuv420_to_rgb(yuv_data: &Vec<u8>, width: u32, height: u32) -> (r: Result<
    Vec<u8>,
    PluginError,
>)
    ensures
        ({
            let w = width as int;
            let h = height as int;
            let wh = w * h;
            let len = yuv_data@.len() as int;
            match r {
                Ok(out) => {
                    &&& len >= wh + 2 * (wh / 4)
                    &&& yuv420_reads_ok(len, w, h)
                    &&& out@.len() == 3 * wh
                    &&& forall|i: int|
                        0 <= i < 3 * wh ==> out@[i] as int == yuv420_byte(yuv_data@, w, h, i)
                },
                Err(PluginError::FrameValidationError) => len < wh + 2 * (wh / 4),
                Err(PluginError::ConversionError) => len >= wh + 2 * (wh / 4) && !yuv420_reads_ok(
                    len,
                    w,
                    h,
                ),
                Err(_) => false,
            }
        }),
{
    let w64: u64 = width as u64;
    let h64: u64 = height as u64;
    proof {
        lemma_mul_inequality(w64 as int, 0xffff_ffff, h64 as int);
    }
    let wh64: u64 = w64 * h64;
    let len64: u64 = yuv_data.len() as u64;
    let uvq64: u64 = wh64 / 4;
    if len64 < wh64 || len64 - wh64 < 2 * uvq64 {
        return Err(PluginError::FrameValidationError);
    }
    if width > 0 && height > 0 {
        proof {
            lemma_div_is_ordered(h64 - 1, h64 as int, 2);
            lemma_div_is_ordered(w64 - 1, w64 as int, 2);
            lemma_div_pos_is_pos(h64 - 1, 2);
            lemma_div_pos_is_pos(w64 - 1, 2);
            lemma_div_pos_is_pos(w64 as int, 2);
            lemma_mul_inequality((h64 - 1) as int / 2, h64 as int, w64 as int / 2);
            lemma_mul_inequality(w64 as int / 2, w64 as int, h64 as int);
            lemma_mul_is_commutative(w64 as int, h64 as int);
        }
        let max_uv: u64 = ((h64 - 1) / 2) * (w64 / 2) + (w64 - 1) / 2;
        let rem: u64 = len64 - wh64 - uvq64;
        if rem < max_uv || rem - max_uv < 1 {
            return Err(PluginError::ConversionError);
        }
    }
    proof {
        lemma_mul_by_zero_is_zero(w64 as int);
        lemma_mul_by_zero_is_zero(h64 as int);
    }
    let wh: usize = wh64 as usize;
    let uvq: usize = wh / 4;
    let mut out: Vec<u8> = Vec::new();
    let mut p: usize = 0;
    let w_us: usize = width as usize;
    while p < wh
        invariant
            p <= wh,
            wh == (width as int) * (height as int),
            w_us == width,
            wh > 0 ==> width > 0 && height > 0,
            uvq == wh as int / 4,
            yuv_data@.len() >= wh + 2 * (wh as int / 4),
            yuv420_reads_ok(yuv_data@.len() as int, width as int, height as int),
            yuv_data@.len() <= usize::MAX,
            out@.len() == 3 * p,
            forall|i: int|
                0 <= i < 3 * p ==> out@[i] as int == yuv420_byte(
                    yuv_data@,
                    width as int,
                    height as int,
                    i,
                ),
        decreases wh - p,
    {
        proof {
            if w_us == 0 {
                assert(wh == 0);
            }
            lemma_pixel_coords(width as int, height as int, p as int);
        }
        let x: usize = p % w_us;
        let y: usize = p / w_us;
        let uvi: usize = (y / 2) * (w_us / 2) + x / 2;
        let u_idx: usize = wh + uvi;
        let v_idx: usize = wh + uvq + uvi;
        let yv: u8 = yuv_data[p];
        let u: i64 = (yuv_data[u_idx] as i64) - 128;
        let v: i64 = (yuv_data[v_idx] as i64) - 128;
        let (rb, gb, bb) = yuv_rgb_triple(yv, u, v);
        out.push(rb);
        out.push(gb);
        out.push(bb);
        proof {
            lemma_flat_index(p as int);
        }
        p = p + 1;
    }
    Ok(out)
}

/// Expand a semi-planar NV21 buffer into RGB.
///
/// The buffer must hold the full luma plane and the interleaved VU plane
/// of half its size; a shorter buffer is a validation error.  A buffer
/// that meets those plane sizes but still ends before the last VU pair
/// the index formula reaches (possible when a dimension is odd) is a
/// conversion error.
pub fn nv21_to_rgb(nv21_data: &Vec<u8>, width: u32, height: u32) -> (r: Result<
    Vec<u8>,
    PluginError,
>)
    ensures
        ({
            let w = width as int;
            let h = height as int;
            let wh = w * h;
            let len = nv21_data@.len() as int;
            match r {
                Ok(out) => {
                    &&& len >= wh + wh / 2
                    &&& nv21_reads_ok(len, w, h)
                    &&& out@.len() == 3 * wh
                    &&& forall|i: int|
                        0 <= i < 3 * wh ==> out@[i] as int == nv21_byte(nv21_data@, w, h, i)
                },
                Err(PluginError::FrameValidationError) => len < wh + wh / 2,
                Err(PluginError::ConversionError) => len >= wh + wh / 2 && !nv21_reads_ok(
                    len,
                    w,
                    h,
                ),
                Err(_) => false,
            }
        }),
{
    let w64: u64 = width as u64;
    let h64: u64 = height as u64;
    proof {
        lemma_mul_inequality(w64 as int, 0xffff_ffff, h64 as int);
    }
    let wh64: u64 = w64 * h64;
    let len64: u64 = nv21_data.len() as u64;
    if len64 < wh64 || len64 - wh64 < wh64 / 2 {
        return Err(PluginError::FrameValidationError);
    }
    if width > 0 && height > 0 {
        proof {
            lemma_div_is_ordered(h64 - 1, h64 as int, 2);
            lemma_div_is_ordered(w64 - 1, w64 as int, 2);
            lemma_div_pos_is_pos(h64 - 1, 2);
            lemma_div_pos_is_pos(w64 - 1, 2);
            lemma_mul_inequality((h64 - 1) as int / 2, h64 as int, w64 as int);
            lemma_mul_is_commutative(w64 as int, h64 as int);
        }
        let max_vu: u64 = ((h64 - 1) / 2) * w64 + 2 * ((w64 - 1) / 2);
        let rem: u64 = len64 - wh64;
        if rem < max_vu || rem - max_vu < 2 {
            return Err(PluginError::ConversionError);
        }
    }
    proof {
        lemma_mul_by_zero_is_zero(w64 as int);
        lemma_mul_by_zero_is_zero(h64 as int);
    }
    let wh: usize = wh64 as usize;
    let mut out: Vec<u8> = Vec::new();
    let mut p: usize = 0;
    let w_us: usize = width as usize;
    while p < wh
        invariant
            p <= wh,
            wh == (width as int) * (height as int),
            w_us == width,
            wh > 0 ==> width > 0 && height > 0,
            nv21_data@.len() >= wh + wh as int / 2,
            nv21_reads_ok(nv21_data@.len() as int, width as int, height as int),
            nv21_data@.len() <= usize::MAX,
            out@.len() == 3 * p,
            forall|i: int|
                0 <= i < 3 * p ==> out@[i] as int == nv21_byte(
                    nv21_data@,
                    width as int,
                    height as int,
                    i,
                ),
        decreases wh - p,
    {
        proof {
            if w_us == 0 {
                assert(wh == 0);
            }
            lemma_pixel_coords(width as int, height as int, p as int);
        }
        let x: usize = p % w_us;
        let y: usize = p / w_us;
        let base: usize = wh + (y / 2) * w_us + 2 * (x / 2);
        let yv: u8 = nv21_data[p];
        let v: i64 = (nv21_data[base] as i64) - 128;
        let u: i64 = (nv21_data[base + 1] as i64) - 128;
        let (rb, gb, bb) = yuv_rgb_triple(yv, u, v);
        out.push(rb);
        out.push(gb);
        out.push(bb);
        proof {
            lemma_flat_index(p as int);
        }
        p = p + 1;
    }
    Ok(out)
}

/// The canonical byte at position `i` of the normalized image, per
/// declared input format.
pub open spec fn normalized_byte(frame: CameraFrameView, i: int) -> int {
    match frame.format {
        ImageFormat::RGB => frame.image_data[i] as int,
        ImageFormat::RGBA => rgba_byte(frame.image_data, i) as int,
        ImageFormat::BGRA => bgra_byte(frame.image_data, i) as int,
        ImageFormat::YUV420 => yuv420_byte(
            frame.image_data,
            frame.width as int,
            frame.height as int,
            i,
        ),
        ImageFormat::NV21 => nv21_byte(
            frame.image_data,
            frame.width as int,
            frame.height as int,
            i,
        ),
    }
}

/// Half of `p` is at least two quarters of `p`, for nonnegative `p`.
proof fn lemma_half_vs_quarters(p: int)
    requires
        0 <= p,
    ensures
        p / 2 >= 2 * (p / 4),
{
    lemma_fundamental_div_mod(p, 4);
    lemma_hoist_over_denominator(p % 4, 2 * (p / 4), 2);
    lemma_div_pos_is_pos(p % 4, 2);
}

/// Convert a raw frame into the canonical interleaved RGB form.
///
/// Frames with zero dimensions, an empty buffer, or a buffer shorter
/// than the declared format requires are rejected as validation errors.
/// A chroma-subsampled frame whose buffer meets the size rule but ends
/// before the last chroma sample its index formula reaches is rejected
/// as a conversion error.  An RGB frame passes through unchanged (up to
/// the declared pixel count).
pub fn normalize(frame: &CameraFrame) -> (r: Result<NormalizedImage, PluginError>)
    ensures
        r is Ok <==> frame_valid(frame@) && chroma_ok(frame@),
        match r {
            Ok(img) => {
                &&& img.width == frame.width
                &&& img.height == frame.height
                &&& img.wf()
                &&& forall|i: int|
                    0 <= i < img@.data.len() ==> img@.data[i] as int == normalized_byte(frame@, i)
                &&& frame.format == ImageFormat::RGB ==> img@.data == frame.image_data@.subrange(
                    0,
                    3 * (frame.width as int) * (frame.height as int),
                )
            },
            Err(e) => {
                if !frame_valid(frame@) {
                    e == PluginError::FrameValidationError
                } else {
                    e == PluginError::ConversionError
                }
            },
        },
{
    if !frame_size_ok(frame) {
        return Err(PluginError::FrameValidationError);
    }
    let width = frame.width;
    let height = frame.height;
    let ghost w: int = width as int;
    let ghost h: int = height as int;
    proof {
        lemma_mul_inequality(w, 0xffff_ffff, h);
        lemma_mul_is_associative(3, w, h);
        lemma_mul_is_associative(4, w, h);
    }
    match frame.format {
        ImageFormat::RGB => {
            let w64: u64 = width as u64;
            let h64: u64 = height as u64;
            let wh64: u64 = w64 * h64;
            let len: usize = frame.image_data.len();
            let n: usize = (3 * wh64) as usize;
            let mut out: Vec<u8> = Vec::new();
            let mut i: usize = 0;
            while i < n
                invariant
                    i <= n,
                    n <= frame.image_data@.len(),
                    out@.len() == i,
                    forall|j: int| 0 <= j < i ==> out@[j] == frame.image_data@[j],
                decreases n - i,
            {
                out.push(frame.image_data[i]);
                i = i + 1;
            }
            proof {
                assert(out@ =~= frame.image_data@.subrange(0, 3 * w * h));
            }
            Ok(NormalizedImage { data: out, width, height })
        },
        ImageFormat::RGBA => {
            match rgba_to_rgb(&frame.image_data, width, height) {
                Ok(data) => Ok(NormalizedImage { data, width, height }),
                Err(e) => Err(e),
            }
        },
        ImageFormat::BGRA => {
            match bgra_to_rgb(&frame.image_data, width, height) {
                Ok(data) => Ok(NormalizedImage { data, width, height }),
                Err(e) => Err(e),
            }
        },
        ImageFormat::YUV420 => {
            proof {
                lemma_three_halves(w * h);
                lemma_half_vs_quarters(w * h);
            }
            match yuv420_to_rgb(&frame.image_data, width, height) {
                Ok(data) => Ok(NormalizedImage { data, width, height }),
                Err(e) => Err(e),
            }
        },
        ImageFormat::NV21 => {
            proof {
                lemma_three_halves(w * h);
            }
            match nv21_to_rgb(&frame.image_data, width, height) {
                Ok(data) => Ok(NormalizedImage { data, width, height }),
                Err(e) => Err(e),
            }
        },
    }
}

/// Decide `chroma_ok` executably: whether the buffer covers every
/// chroma sample the declared format's index formula reaches.
pub fn frame_chroma_ok(frame: &CameraFrame) -> (b: bool)
    ensures
        b == chroma_ok(frame@),
{
    match frame.format {
        ImageFormat::RGB | ImageFormat::RGBA | ImageFormat::BGRA => true,
        ImageFormat::YUV420 => {
            if frame.width == 0 || frame.height == 0 {
                return true;
            }
            let w64: u64 = frame.width as u64;
            let h64: u64 = frame.height as u64;
            proof {
                lemma_mul_inequality(w64 as int, 0xffff_ffff, h64 as int);
                lemma_div_is_ordered(h64 - 1, h64 as int, 2);
                lemma_div_is_ordered(w64 - 1, w64 as int, 2);
                lemma_div_pos_is_pos(h64 - 1, 2);
                lemma_div_pos_is_pos(w64 - 1, 2);
                lemma_div_pos_is_pos(w64 as int, 2);
                lemma_mul_inequality((h64 - 1) as int / 2, h64 as int, w64 as int / 2);
                lemma_mul_inequality(w64 as int / 2, w64 as int, h64 as int);
                lemma_mul_is_commutative(w64 as int, h64 as int);
            }
            let wh64: u64 = w64 * h64;
            let len64: u64 = frame.image_data.len() as u64;
            let uvq64: u64 = wh64 / 4;
            let max_uv: u64 = ((h64 - 1) / 2) * (w64 / 2) + (w64 - 1) / 2;
            if len64 < wh64 {
                return false;
            }
            let rem: u64 = len64 - wh64;
            if rem < uvq64 {
                return false;
            }
            rem - uvq64 >= max_uv && rem - uvq64 - max_uv >= 1
        },
        ImageFormat::NV21 => {
            if frame.width == 0 || frame.height == 0 {
                return true;
            }
            let w64: u64 = frame.width as u64;
            let h64: u64 = frame.height as u64;
            proof {
                lemma_mul_inequality(w64 as int, 0xffff_ffff, h64 as int);
                lemma_div_is_ordered(h64 - 1, h64 as int, 2);
                lemma_div_is_ordered(w64 - 1, w64 as int, 2);
                lemma_div_pos_is_pos(h64 - 1, 2);
                lemma_div_pos_is_pos(w64 - 1, 2);
                lemma_mul_inequality((h64 - 1) as int / 2, h64 as int, w64 as int);
                lemma_mul_is_commutative(w64 as int, h64 as int);
            }
            let wh64: u64 = w64 * h64;
            let len64: u64 = frame.image_data.len() as u64;
            let max_vu: u64 = ((h64 - 1) / 2) * w64 + 2 * ((w64 - 1) / 2);
            if len64 < wh64 {
                return false;
            }
            let rem: u64 = len64 - wh64;
            rem >= max_vu && rem - max_vu >= 2
        },
    }
}

/// An RGB frame is never rejected for its chroma layout, and one whose
/// buffer holds exactly three bytes per pixel normalizes to its own
/// buffer, unchanged: the declared prefix is the whole buffer.
pub proof fn lemma_rgb_exact_buffer_unchanged(frame: CameraFrameView)
    requires
        frame.format == ImageFormat::RGB,
        frame.width > 0,
        frame.height > 0,
        frame.image_data.len() == 3 * (frame.width as int) * (frame.height as int),
    ensures
        frame_valid(frame),
        chroma_ok(frame),
        frame.image_data.subrange(0, 3 * (frame.width as int) * (frame.height as int))
            == frame.image_data,
{
    assert(frame.image_data.subrange(0, frame.image_data.len() as int) =~= frame.image_data);
}

/// A YUV420 frame of even dimensions whose bytes are all 128 normalizes
/// to mid-gray: both chroma offsets come out as zero, so every channel
/// of every pixel reduces to the luma value, 128.
pub proof fn lemma_yuv420_gray_normalizes_gray(frame: CameraFrameView)
    requires
        frame.format == ImageFormat::YUV420,
        frame.width > 0,
        frame.height > 0,
        frame.width % 2 == 0,
        frame.height % 2 == 0,
        frame_valid(frame),
        forall|j: int| 0 <= j < frame.image_data.len() ==> frame.image_data[j] == 128u8,
    ensures
        chroma_ok(frame),
        forall|i: int|
            0 <= i < 3 * (frame.width as int) * (frame.height as int) ==> normalized_byte(
                frame,
                i,
            ) == 128,
{
    let w = frame.width as int;
    let h = frame.height as int;
    let wh = w * h;
    let len = frame.image_data.len() as int;
    let a = w / 2;
    let b = h / 2;
    lemma_fundamental_div_mod(w, 2);
    lemma_fundamental_div_mod(h, 2);
    assert(wh == 4 * (a * b)) by (nonlinear_arith)
        requires
            w == 2 * a,
            h == 2 * b,
            wh == w * h,
    ;
    lemma_div_multiples_vanish(a * b, 4);
    assert(3 * wh == 2 * (6 * (a * b)));
    lemma_div_multiples_vanish(6 * (a * b), 2);
    lemma_mul_is_associative(3, w, h);
    assert(len >= 6 * (a * b));
    lemma_fundamental_div_mod_converse(h - 1, 2, b - 1, 1);
    lemma_fundamental_div_mod_converse(w - 1, 2, a - 1, 1);
    assert((b - 1) * a == a * b - a) by (nonlinear_arith);
    assert(yuv420_max_uv(w, h) == a * b - 1);
    assert(chroma_ok(frame));
    assert forall|i: int| 0 <= i < 3 * wh implies normalized_byte(frame, i) == 128 by {
        let p = i / 3;
        lemma_div_pos_is_pos(i, 3);
        lemma_multiply_divide_lt(i, 3, wh);
        lemma_pixel_coords(w, h, p);
        let x = p % w;
        let y = p / w;
        let uvi = (y / 2) * (w / 2) + x / 2;
        assert(frame.image_data[p] == 128u8);
        assert(frame.image_data[wh + uvi] == 128u8);
        assert(frame.image_data[wh + wh / 4 + uvi] == 128u8);
        assert(yuv420_sample_u(frame.image_data, w, wh, x, y) == 0);
        assert(yuv420_sample_v(frame.image_data, w, wh, x, y) == 0);
        assert(yuv_red(128, 0) == 128);
        assert(yuv_green(128, 0, 0) == 128);
        assert(yuv_blue(128, 0) == 128);
    }
}

} // verus!
