//! The single entry operation: validate, configure the engine, build a
//! palette, remap, and check what came back.
use vstd::prelude::*;
use crate::engine::{
    EngineConfig, EnginePalette, RasterModel, Settings, disable_dithering, new_config, new_image,
    palette_of, quantize, quantize_ok, remap_out, remap_quality, remapped, remapping_quality,
    set_max_colors, set_quality, set_speed,
};
use crate::palette::{QuantResult, acceptable, assemble_result, flat_of};
use crate::raster::{
    Color, QuantError, colors_of, mean_color, mean_of, pixel_at, request_error, to_colors,
    validate_request, lemma_mean_of_uniform,
};

verus! {

/// Tuning of one quantization.
#[derive(Clone, Copy, Debug, PartialEq, Eq, Structural)]
pub struct QuantOptions {
    /// 0 (slowest, best) to 10 (fastest); the engine treats 0 as 1.
    pub speed: u8,
    /// Quality floor, 0 to 100, handed to the engine, which gives up on a
    /// palette that cannot reach it; 0 never gives up.
    pub min_quality: u8,
    /// Quality to aim for, from `min_quality` to 100.
    pub target_quality: u8,
    /// Whether to diffuse the quantization error (full strength) or map each
    /// pixel to its nearest entry.
    pub dithering: bool,
}

/// The options `quantize_image` uses.
pub open spec fn standard_options() -> QuantOptions {
    QuantOptions { speed: 5, min_quality: 0, target_quality: 99, dithering: true }
}

/// Every option is within its range.
pub open spec fn options_valid(o: QuantOptions) -> bool {
    &&& o.speed <= 10
    &&& o.target_quality <= 100
    &&& o.min_quality <= o.target_quality
}

/// The error a request draws before any work is done, or `None`.
pub open spec fn quantize_error(len: int, width: int, height: int, max_colors: int, o: QuantOptions) -> Option<QuantError> {
    match request_error(len, width, height, max_colors) {
        Some(e) => Some(e),
        None => if options_valid(o) { None } else { Some(QuantError::InvalidArgument) },
    }
}

/// The settings the engine is given for a palette of `max_colors` entries.
pub open spec fn engine_settings(max_colors: u32, o: QuantOptions) -> Settings {
    (max_colors, if o.speed == 0 { 1i32 } else { o.speed as i32 }, o.min_quality, o.target_quality)
}

/// A byte buffer of the given sides as the engine sees it.
pub open spec fn raster_of(pixels: Seq<u8>, width: u32, height: u32) -> RasterModel {
    (colors_of(pixels), width as usize, height as usize)
}

/// The result of a request that was served by the engine: its output when
/// it fits the request, `QuantizationFailed` otherwise.
pub open spec fn engine_result(
    s: Settings,
    source: RasterModel,
    dither: bool,
    target: RasterModel,
    max_colors: int,
    r: Result<QuantResult, QuantError>,
) -> bool {
    match remap_out(s, source, dither, target) {
        None => r matches Err(e) && e == QuantError::QuantizationFailed,
        Some(out) => if acceptable(out.0, out.1, target.1 * target.2, max_colors) {
            r matches Ok(q) && q.palette_view() == flat_of(out.0) && q.indices_view() == out.1
                && q.quality_view() == remap_quality((s, source, dither, Some(target)))
        } else {
            r matches Err(e) && e == QuantError::QuantizationFailed
        },
    }
}

/// The result for a palette of one entry: the mean color of the raster the
/// palette was built from, every index 0, no estimate.
pub open spec fn single_result(source: Seq<Color>, pixel_count: int, r: Result<QuantResult, QuantError>) -> bool {
    r matches Ok(q) && q.palette_view() == flat_of(seq![mean_color(source)])
        && q.indices_view() == Seq::new(pixel_count as nat, |i: int| 0u8)
        && q.quality_view() is None
}

/// The outcome of remapping a raster to a palette built with `max_colors`,
/// settings `s`, from `source`, with diffusion on or off.
pub open spec fn remap_outcome(
    max_colors: u32,
    s: Settings,
    source: RasterModel,
    dither: bool,
    pixels: Seq<u8>,
    width: u32,
    height: u32,
    r: Result<QuantResult, QuantError>,
) -> bool {
    match request_error(pixels.len() as int, width as int, height as int, max_colors as int) {
        Some(e) => r matches Err(x) && x == e,
        None => if max_colors == 1 {
            single_result(source.0, width * height, r)
        } else {
            engine_result(s, source, dither, raster_of(pixels, width, height), max_colors as int, r)
        },
    }
}

/// The outcome of quantizing a raster: the palette is built from it, then
/// it is remapped to that palette.
pub open spec fn quantize_outcome(
    pixels: Seq<u8>,
    width: u32,
    height: u32,
    max_colors: u32,
    o: QuantOptions,
    r: Result<QuantResult, QuantError>,
) -> bool {
    match quantize_error(pixels.len() as int, width as int, height as int, max_colors as int, o) {
        Some(e) => r matches Err(x) && x == e,
        None => if max_colors >= 2 && !quantize_ok(engine_settings(max_colors, o), raster_of(pixels, width, height)) {
            r matches Err(e) && e == QuantError::QuantizationFailed
        } else {
            remap_outcome(max_colors, engine_settings(max_colors, o), raster_of(pixels, width, height), o.dithering, pixels, width, height, r)
        },
    }
}

/// Two outcomes agree: both fail alike, or both succeed with the same bytes.
pub open spec fn same_result(r1: Result<QuantResult, QuantError>, r2: Result<QuantResult, QuantError>) -> bool {
    match (r1, r2) {
        (Ok(a), Ok(b)) => a.palette_view() == b.palette_view() && a.indices_view() == b.indices_view()
            && a.quality_view() == b.quality_view(),
        (Err(a), Err(b)) => a == b,
        _ => false,
    }
}

impl QuantOptions {
    /// Mid-range speed, no quality floor, target quality 99, full dithering.
    pub fn new() -> (r: QuantOptions)
        ensures
            r == standard_options(),
    {
        QuantOptions { speed: 5, min_quality: 0, target_quality: 99, dithering: true }
    }
}

/// Quantizes an RGBA8 raster of `width * height` pixels to at most
/// `max_colors` palette entries, with the standard options.
pub fn quantize_image(pixels: &[u8], width: u32, height: u32, max_colors: u32) -> (r: Result<QuantResult, QuantError>)
    ensures
        quantize_outcome(pixels@, width, height, max_colors, standard_options(), r),
{
    let options = QuantOptions::new();
    quantize_image_with(pixels, width, height, max_colors, &options)
}

/// Quantizes an RGBA8 raster of `width * height` pixels to at most
/// `max_colors` palette entries: builds the palette from the raster, then
/// remaps the raster to it.
pub fn quantize_image_with(
    pixels: &[u8],
    width: u32,
    height: u32,
    max_colors: u32,
    options: &QuantOptions,
) -> (r: Result<QuantResult, QuantError>)
    ensures
        quantize_outcome(pixels@, width, height, max_colors, *options, r),
{
    let mut quantizer = match Quantizer::build(pixels, width, height, max_colors, options) {
        Ok(q) => q,
        Err(e) => return Err(e),
    };
    quantizer.remap(pixels, width, height)
}

/// A palette built once from one raster, to remap that raster or others to.
pub struct Quantizer {
    config: EngineConfig,
    palette: Option<EnginePalette>,
    single: Color,
    max_colors: u32,
    settings: Ghost<Settings>,
    source: Ghost<RasterModel>,
    dither: Ghost<bool>,
}

impl Quantizer {
    /// The palette size bound the quantizer was built with.
    pub closed spec fn color_limit(&self) -> u32 {
        self.max_colors
    }

    /// The settings the engine built the palette under.
    pub closed spec fn settings(&self) -> Settings {
        self.settings@
    }

    /// The raster the palette was built from.
    pub closed spec fn source(&self) -> RasterModel {
        self.source@
    }

    /// Whether remapping diffuses the error.
    pub closed spec fn dithering(&self) -> bool {
        self.dither@
    }

    /// The bound is in range; a one-entry palette holds the source's mean
    /// color; a larger one is the engine's, built as the model says.
    pub closed spec fn wf(&self) -> bool {
        &&& 1 <= self.max_colors <= 256
        &&& self.max_colors == 1 ==> self.single == mean_color(self.source@.0)
        &&& self.max_colors >= 2 ==> (self.palette matches Some(p) && palette_of(p).0 == self.settings@
            && palette_of(p).1 == self.source@ && palette_of(p).2 == self.dither@)
    }

    /// Builds a palette of at most `max_colors` entries for a raster.
    pub fn build(pixels: &[u8], width: u32, height: u32, max_colors: u32, options: &QuantOptions) -> (r: Result<Quantizer, QuantError>)
        ensures
            match quantize_error(pixels@.len() as int, width as int, height as int, max_colors as int, *options) {
                Some(e) => r matches Err(x) && x == e,
                None => if max_colors >= 2 && !quantize_ok(engine_settings(max_colors, *options), raster_of(pixels@, width, height)) {
                    r matches Err(e) && e == QuantError::QuantizationFailed
                } else {
                    r matches Ok(q) && q.wf() && q.color_limit() == max_colors
                        && q.settings() == engine_settings(max_colors, *options)
                        && q.source() == raster_of(pixels@, width, height) && q.dithering() == options.dithering
                },
            },
    {
        let count: usize = match validate_request(pixels.len(), width, height, max_colors) {
            Ok(n) => n,
            Err(e) => return Err(e),
        };
        if !(options.speed <= 10 && options.target_quality <= 100 && options.min_quality <= options.target_quality) {
            return Err(QuantError::InvalidArgument);
        }
        let colors = to_colors(pixels);
        assert(1 <= width * height) by (nonlinear_arith)
            requires width >= 1, height >= 1;
        assert(colors@.len() == count);
        let ghost settings = engine_settings(max_colors, *options);
        let ghost source = raster_of(pixels@, width, height);
        let mut config = new_config();
        if max_colors == 1 {
            let single = mean_of(&colors);
            return Ok(Quantizer {
                config,
                palette: None,
                single,
                max_colors,
                settings: Ghost(settings),
                source: Ghost(source),
                dither: Ghost(options.dithering),
            });
        }
        let set_colors = set_max_colors(&mut config, max_colors);
        let speed: i32 = if options.speed == 0 { 1 } else { options.speed as i32 };
        let set_pace = set_speed(&mut config, speed);
        let set_target = set_quality(&mut config, options.min_quality, options.target_quality);
        assert(set_colors.is_ok() && set_pace.is_ok() && set_target.is_ok());

        let mut image = match new_image(&config, &colors, width as usize, height as usize) {
            Ok(img) => img,
            Err(_) => return Err(QuantError::QuantizationFailed),
        };
        let mut palette = match quantize(&config, &mut image) {
            Ok(p) => p,
            Err(_) => return Err(QuantError::QuantizationFailed),
        };
        if !options.dithering {
            let _ = disable_dithering(&mut palette);
        }
        Ok(Quantizer {
            config,
            palette: Some(palette),
            single: Color { r: 0, g: 0, b: 0, a: 0 },
            max_colors,
            settings: Ghost(settings),
            source: Ghost(source),
            dither: Ghost(options.dithering),
        })
    }

    /// Maps each pixel of a raster to an entry of the built palette. The
    /// palette is left as it is; the raster need not be the one it was built from.
    pub fn remap(&mut self, pixels: &[u8], width: u32, height: u32) -> (r: Result<QuantResult, QuantError>)
        requires
            old(self).wf(),
        ensures
            final(self).wf(),
            final(self).color_limit() == old(self).color_limit(),
            final(self).settings() == old(self).settings(),
            final(self).source() == old(self).source(),
            final(self).dithering() == old(self).dithering(),
            remap_outcome(old(self).color_limit(), old(self).settings(), old(self).source(), old(self).dithering(),
                pixels@, width, height, r),
    {
        let count: usize = match validate_request(pixels.len(), width, height, self.max_colors) {
            Ok(n) => n,
            Err(e) => return Err(e),
        };
        if self.max_colors == 1 {
            let mut zeros: Vec<u8> = Vec::with_capacity(count);
            let mut i: usize = 0;
            while i < count
                invariant
                    i <= count,
                    zeros@ == Seq::new(i as nat, |j: int| 0u8),
                decreases count - i,
            {
                zeros.push(0u8);
                i = i + 1;
            }
            let entry = vec![self.single];
            assert(entry@ == seq![self.single]);
            return assemble_result(entry, zeros, None, count, self.max_colors);
        }
        let colors = to_colors(pixels);
        let mut image = match new_image(&self.config, &colors, width as usize, height as usize) {
            Ok(img) => img,
            Err(_) => return Err(QuantError::QuantizationFailed),
        };
        let mut palette = match self.palette.take() {
            Some(p) => p,
            None => return Err(QuantError::QuantizationFailed),
        };
        let out = remapped(&mut palette, &mut image);
        let quality = remapping_quality(&palette);
        self.palette = Some(palette);
        let (entries, indices) = match out {
            Ok(v) => v,
            Err(_) => return Err(QuantError::QuantizationFailed),
        };
        assemble_result(entries, indices, quality, count, self.max_colors)
    }
}

/// Quantizing the same raster with the same bound and options twice gives
/// the same outcome, byte for byte.
pub proof fn lemma_quantize_deterministic(
    pixels: Seq<u8>,
    width: u32,
    height: u32,
    max_colors: u32,
    o: QuantOptions,
    r1: Result<QuantResult, QuantError>,
    r2: Result<QuantResult, QuantError>,
)
    requires
        quantize_outcome(pixels, width, height, max_colors, o, r1),
        quantize_outcome(pixels, width, height, max_colors, o, r2),
    ensures
        same_result(r1, r2),
{
}

/// Remapping the same raster twice to one built palette gives the same
/// outcome: the palette is not changed by use.
pub proof fn lemma_remap_repeatable(
    max_colors: u32,
    s: Settings,
    source: RasterModel,
    dither: bool,
    pixels: Seq<u8>,
    width: u32,
    height: u32,
    r1: Result<QuantResult, QuantError>,
    r2: Result<QuantResult, QuantError>,
)
    requires
        remap_outcome(max_colors, s, source, dither, pixels, width, height, r1),
        remap_outcome(max_colors, s, source, dither, pixels, width, height, r2),
    ensures
        same_result(r1, r2),
{
}

/// A raster of one color, quantized to a single entry, gives that color as
/// the palette and index 0 for every pixel.
pub proof fn lemma_monochrome_single_entry(
    pixels: Seq<u8>,
    width: u32,
    height: u32,
    o: QuantOptions,
    c: Color,
    r: Result<QuantResult, QuantError>,
)
    requires
        quantize_error(pixels.len() as int, width as int, height as int, 1, o) is None,
        forall|i: int| 0 <= i < pixels.len() / 4 ==> pixel_at(pixels, i) == c,
        quantize_outcome(pixels, width, height, 1, o, r),
    ensures
        r matches Ok(q) && q.palette_view() == flat_of(seq![c])
            && forall|i: int| 0 <= i < q.indices_view().len() ==> q.indices_view()[i] == 0,
{
    let s = colors_of(pixels);
    assert(s.len() >= 1) by (nonlinear_arith)
        requires s.len() == pixels.len() / 4, pixels.len() == width * height * 4, width >= 1, height >= 1;
    lemma_mean_of_uniform(s, c);
}

} // verus!
