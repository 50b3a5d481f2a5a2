//! The input raster: its validation and its reading as a sequence of pixels.
use vstd::prelude::*;

verus! {

/// Largest number of pixels that one request may hold.
pub const MAX_PIXELS: u64 = 0x400_0000;

/// Smallest and largest palette size a caller may ask for.
pub const MIN_COLORS: u32 = 1;
pub const MAX_COLORS: u32 = 256;

/// One RGBA8 pixel.
#[derive(Clone, Copy, Debug, PartialEq, Eq, Structural)]
pub struct Color {
    pub r: u8,
    pub g: u8,
    pub b: u8,
    pub a: u8,
}

/// Why a request was turned down.
#[derive(Clone, Copy, Debug, PartialEq, Eq, Structural)]
pub enum QuantError {
    /// The buffer does not hold `width * height` pixels, or a side is zero.
    InvalidDimensions,
    /// The raster holds more pixels than `MAX_PIXELS`.
    Unsupported,
    /// A tuning parameter is out of its range.
    InvalidArgument,
    /// The engine could not produce a palette and index buffer for the input.
    QuantizationFailed,
}

/// The error that a request with a buffer of `len` bytes, the given sides and
/// palette size draws, or `None` if it is well formed.
pub open spec fn request_error(len: int, width: int, height: int, max_colors: int) -> Option<QuantError> {
    if width == 0 || height == 0 || len != width * height * 4 {
        Some(QuantError::InvalidDimensions)
    } else if width * height > MAX_PIXELS {
        Some(QuantError::Unsupported)
    } else if max_colors < MIN_COLORS || max_colors > MAX_COLORS {
        Some(QuantError::InvalidArgument)
    } else {
        None
    }
}

/// Checks a request and returns its number of pixels.
pub fn validate_request(len: usize, width: u32, height: u32, max_colors: u32) -> (r: Result<usize, QuantError>)
    ensures
        match request_error(len as int, width as int, height as int, max_colors as int) {
            Some(e) => r == Err::<usize, QuantError>(e),
            None => r == Ok::<usize, QuantError>((width * height) as usize),
        },
{
    let w: u64 = width as u64;
    let h: u64 = height as u64;
    assert(w * h <= 0xffff_ffff * 0xffff_ffff) by (nonlinear_arith)
        requires w <= 0xffff_ffff, h <= 0xffff_ffff;
    let pixels: u64 = w * h;
    if width == 0 || height == 0 || len as u64 / 4 != pixels || len as u64 % 4 != 0 {
        return Err(QuantError::InvalidDimensions);
    }
    if pixels > MAX_PIXELS {
        return Err(QuantError::Unsupported);
    }
    if max_colors < MIN_COLORS || max_colors > MAX_COLORS {
        return Err(QuantError::InvalidArgument);
    }
    Ok(pixels as usize)
}

/// The pixel that bytes `4 * i .. 4 * i + 4` of `bytes` spell.
pub open spec fn pixel_at(bytes: Seq<u8>, i: int) -> Color {
    Color { r: bytes[4 * i], g: bytes[4 * i + 1], b: bytes[4 * i + 2], a: bytes[4 * i + 3] }
}

/// An interleaved RGBA8 buffer read as pixels, in the same order.
pub open spec fn colors_of(bytes: Seq<u8>) -> Seq<Color> {
    Seq::new((bytes.len() / 4) as nat, |i: int| pixel_at(bytes, i))
}

/// Reads an interleaved RGBA8 buffer as pixels.
pub fn to_colors(bytes: &[u8]) -> (r: Vec<Color>)
    requires
        bytes@.len() % 4 == 0,
    ensures
        r@ == colors_of(bytes@),
{
    let len: usize = bytes.len();
    let n: usize = len / 4;
    assert(4 * n == bytes@.len());
    let mut out: Vec<Color> = Vec::with_capacity(n);
    let mut i: usize = 0;
    while i < n
        invariant
            n == bytes@.len() / 4,
            4 * n == bytes@.len(),
            len == bytes@.len(),
            i <= n,
            out@.len() == i,
            forall|j: int| 0 <= j < i ==> out@[j] == pixel_at(bytes@, j),
        decreases n - i,
    {
        let k: usize = 4 * i;
        out.push(Color { r: bytes[k], g: bytes[k + 1], b: bytes[k + 2], a: bytes[k + 3] });
        i = i + 1;
    }
    assert(out@ =~= colors_of(bytes@));
    out
}

/// Channel `k` of a pixel: 0 red, 1 green, 2 blue, 3 alpha.
pub open spec fn channel(c: Color, k: int) -> int {
    if k == 0 {
        c.r as int
    } else if k == 1 {
        c.g as int
    } else if k == 2 {
        c.b as int
    } else {
        c.a as int
    }
}

/// The sum of channel `k` over a sequence of pixels.
pub open spec fn channel_sum(s: Seq<Color>, k: int) -> int
    decreases s.len(),
{
    if s.len() == 0 {
        0
    } else {
        channel_sum(s.drop_last(), k) + channel(s.last(), k)
    }
}

/// The mean of channel `k`, rounded down.
pub open spec fn channel_mean(s: Seq<Color>, k: int) -> int {
    channel_sum(s, k) / (s.len() as int)
}

/// The weighted centroid of a raster, each channel rounded down: the one
/// representative a palette of a single entry can hold.
pub open spec fn mean_color(s: Seq<Color>) -> Color {
    Color {
        r: channel_mean(s, 0) as u8,
        g: channel_mean(s, 1) as u8,
        b: channel_mean(s, 2) as u8,
        a: channel_mean(s, 3) as u8,
    }
}

proof fn lemma_channel_sum_bounds(s: Seq<Color>, k: int)
    ensures
        0 <= channel_sum(s, k) <= 255 * s.len(),
    decreases s.len(),
{
    if s.len() > 0 {
        lemma_channel_sum_bounds(s.drop_last(), k);
    }
}

/// A raster whose pixels all equal `c` has channel sums `len * c`.
proof fn lemma_channel_sum_uniform(s: Seq<Color>, c: Color, k: int)
    requires
        forall|i: int| 0 <= i < s.len() ==> s[i] == c,
    ensures
        channel_sum(s, k) == s.len() * channel(c, k),
    decreases s.len(),
{
    if s.len() > 0 {
        lemma_channel_sum_uniform(s.drop_last(), c, k);
        assert(channel_sum(s, k) == (s.len() - 1) * channel(c, k) + channel(c, k));
        assert((s.len() - 1) * channel(c, k) + channel(c, k) == s.len() * channel(c, k)) by (nonlinear_arith);
    }
}

/// The mean of a raster of one color is that color.
pub proof fn lemma_mean_of_uniform(s: Seq<Color>, c: Color)
    requires
        s.len() >= 1,
        forall|i: int| 0 <= i < s.len() ==> s[i] == c,
    ensures
        mean_color(s) == c,
{
    let n = s.len() as int;
    assert forall|k: int| 0 <= k < 4 implies channel_mean(s, k) == channel(c, k) by {
        lemma_channel_sum_uniform(s, c, k);
        let v = channel(c, k);
        assert((n * v) / n == v) by (nonlinear_arith)
            requires n >= 1;
    }
    assert(channel_mean(s, 0) == channel(c, 0));
    assert(channel_mean(s, 1) == channel(c, 1));
    assert(channel_mean(s, 2) == channel(c, 2));
    assert(channel_mean(s, 3) == channel(c, 3));
}

/// The mean of one channel over a non-empty raster.
fn mean_channel(pixels: &Vec<Color>, k: u8) -> (r: u8)
    requires
        1 <= pixels@.len() <= MAX_PIXELS,
        k < 4,
    ensures
        r == channel_mean(pixels@, k as int),
{
    let n: usize = pixels.len();
    let mut sum: u64 = 0;
    let mut i: usize = 0;
    while i < n
        invariant
            n == pixels@.len(),
            n <= MAX_PIXELS,
            i <= n,
            k < 4,
            sum == channel_sum(pixels@.subrange(0, i as int), k as int),
            sum <= 255 * i,
        decreases n - i,
    {
        let c = pixels[i];
        let v: u8 = if k == 0 { c.r } else if k == 1 { c.g } else if k == 2 { c.b } else { c.a };
        assert(pixels@.subrange(0, i + 1).drop_last() =~= pixels@.subrange(0, i as int));
        sum = sum + v as u64;
        i = i + 1;
    }
    assert(pixels@.subrange(0, n as int) =~= pixels@);
    proof {
        lemma_channel_sum_bounds(pixels@, k as int);
    }
    let m: u64 = sum / (n as u64);
    assert(m <= 255) by (nonlinear_arith)
        requires m == sum / (n as u64), sum <= 255 * n, n >= 1;
    m as u8
}

/// The mean color of a non-empty raster.
pub fn mean_of(pixels: &Vec<Color>) -> (r: Color)
    requires
        1 <= pixels@.len() <= MAX_PIXELS,
    ensures
        r == mean_color(pixels@),
{
    Color {
        r: mean_channel(pixels, 0),
        g: mean_channel(pixels, 1),
        b: mean_channel(pixels, 2),
        a: mean_channel(pixels, 3),
    }
}

} // verus!
