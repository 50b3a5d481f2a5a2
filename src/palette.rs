//! The engine's output: a flat palette and an index buffer, and the checks
//! that make a result out of them.
use vstd::prelude::*;
use crate::raster::{Color, QuantError, colors_of, pixel_at};

verus! {

/// Byte `k` of a palette written as interleaved RGBA8.
pub open spec fn flat_byte(palette: Seq<Color>, k: int) -> u8 {
    let c = palette[k / 4];
    if k % 4 == 0 {
        c.r
    } else if k % 4 == 1 {
        c.g
    } else if k % 4 == 2 {
        c.b
    } else {
        c.a
    }
}

/// A palette written as interleaved RGBA8, four bytes per entry, in order.
pub open spec fn flat_of(palette: Seq<Color>) -> Seq<u8> {
    Seq::new(4 * palette.len(), |k: int| flat_byte(palette, k))
}

/// Every index of `indices` names an entry of a palette with `n` entries.
pub open spec fn indices_below(indices: Seq<u8>, n: int) -> bool {
    forall|i: int| 0 <= i < indices.len() ==> (indices[i] as int) < n
}

/// Writes a palette as interleaved RGBA8.
pub fn flatten_palette(palette: &Vec<Color>) -> (r: Vec<u8>)
    requires
        palette@.len() <= 256,
    ensures
        r@ == flat_of(palette@),
{
    let mut out: Vec<u8> = Vec::with_capacity(4 * palette.len());
    let mut i: usize = 0;
    while i < palette.len()
        invariant
            palette@.len() <= 256,
            i <= palette@.len(),
            out@.len() == 4 * i,
            forall|k: int| 0 <= k < 4 * i ==> out@[k] == flat_byte(palette@, k),
        decreases palette@.len() - i,
    {
        let c = palette[i];
        out.push(c.r);
        out.push(c.g);
        out.push(c.b);
        out.push(c.a);
        assert forall|k: int| 0 <= k < 4 * (i + 1) implies out@[k] == flat_byte(palette@, k) by {
            if k >= 4 * i {
                assert(k / 4 == i);
            }
        }
        i = i + 1;
    }
    assert(out@ =~= flat_of(palette@));
    out
}

/// Whether every index names an entry of a palette with `n` entries.
pub fn all_indices_below(indices: &Vec<u8>, n: usize) -> (r: bool)
    ensures
        r == indices_below(indices@, n as int),
{
    let mut i: usize = 0;
    while i < indices.len()
        invariant
            i <= indices@.len(),
            indices_below(indices@.subrange(0, i as int), n as int),
        decreases indices@.len() - i,
    {
        if indices[i] as usize >= n {
            return false;
        }
        assert(indices@.subrange(0, i + 1) =~= indices@.subrange(0, i as int).push(indices@[i as int]));
        i = i + 1;
    }
    assert(indices@.subrange(0, i as int) =~= indices@);
    true
}

/// Writing a palette out and reading it back gives the same palette.
pub proof fn lemma_flat_round_trip(palette: Seq<Color>)
    ensures
        colors_of(flat_of(palette)) == palette,
{
    let f = flat_of(palette);
    assert forall|i: int| 0 <= i < palette.len() implies pixel_at(f, i) == palette[i] by {
        assert((4 * i) / 4 == i);
        assert((4 * i + 1) / 4 == i);
        assert((4 * i + 2) / 4 == i);
        assert((4 * i + 3) / 4 == i);
    }
    assert(colors_of(f) =~= palette);
}

/// A finished quantization: the palette as interleaved RGBA8, one index per
/// pixel in row-major order, and the engine's estimate of the fidelity.
pub struct QuantResult {
    palette: Vec<u8>,
    indices: Vec<u8>,
    quality: Option<u8>,
}

impl QuantResult {
    /// The palette bytes, four per entry.
    pub closed spec fn palette_view(&self) -> Seq<u8> {
        self.palette@
    }

    /// The index of each pixel, row-major.
    pub closed spec fn indices_view(&self) -> Seq<u8> {
        self.indices@
    }

    /// The fidelity estimate, 0 to 100, when the engine gave one.
    pub closed spec fn quality_view(&self) -> Option<u8> {
        self.quality
    }

    /// Number of palette entries.
    pub open spec fn entries(&self) -> int {
        (self.palette_view().len() / 4) as int
    }

    /// The palette holds 1 to 256 whole entries and every index names one of them.
    pub open spec fn wf(&self) -> bool {
        &&& self.palette_view().len() % 4 == 0
        &&& 1 <= self.entries() <= 256
        &&& indices_below(self.indices_view(), self.entries())
    }

    pub fn palette(&self) -> (r: &Vec<u8>)
        ensures
            r@ == self.palette_view(),
    {
        &self.palette
    }

    pub fn indices(&self) -> (r: &Vec<u8>)
        ensures
            r@ == self.indices_view(),
    {
        &self.indices
    }

    /// Number of palette bytes (four per entry).
    pub fn palette_len(&self) -> (r: usize)
        ensures
            r == self.palette_view().len(),
    {
        self.palette.len()
    }

    /// Number of indices, one per pixel.
    pub fn indices_len(&self) -> (r: usize)
        ensures
            r == self.indices_view().len(),
    {
        self.indices.len()
    }

    /// The engine's fidelity estimate on a 0 to 100 scale, higher is better.
    pub fn quality(&self) -> (r: Option<u8>)
        ensures
            r == self.quality_view(),
    {
        self.quality
    }
}

/// Whether the engine's palette and indices make a result for a raster of
/// `pixel_count` pixels and a palette of at most `max_colors` entries.
pub open spec fn acceptable(palette: Seq<Color>, indices: Seq<u8>, pixel_count: int, max_colors: int) -> bool {
    &&& 1 <= palette.len() <= max_colors
    &&& indices.len() == pixel_count
    &&& indices_below(indices, palette.len() as int)
}

/// Builds the result from what the engine returned, after checking that it
/// fits the request; anything else is a failed quantization.
pub fn assemble_result(
    palette: Vec<Color>,
    indices: Vec<u8>,
    quality: Option<u8>,
    pixel_count: usize,
    max_colors: u32,
) -> (r: Result<QuantResult, QuantError>)
    requires
        max_colors <= 256,
    ensures
        r.is_ok() == acceptable(palette@, indices@, pixel_count as int, max_colors as int),
        r matches Err(e) ==> e == QuantError::QuantizationFailed,
        r matches Ok(q) ==> {
            &&& q.wf()
            &&& q.palette_view() == flat_of(palette@)
            &&& q.entries() == palette@.len()
            &&& q.indices_view() == indices@
            &&& q.quality_view() == quality
        },
{
    let n: usize = palette.len();
    if n < 1 || n > max_colors as usize || indices.len() != pixel_count || !all_indices_below(&indices, n) {
        return Err(QuantError::QuantizationFailed);
    }
    let flat = flatten_palette(&palette);
    assert(flat@.len() / 4 == n);
    Ok(QuantResult { palette: flat, indices, quality })
}

} // verus!
