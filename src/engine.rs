//! The calls into libimagequant, each behind a trusted item whose contract
//! states what the crate's source shows of it.
//!
//! With its thread pool switched off the engine has no randomness, no clock
//! and a fixed-seed hasher, so what it computes is a function of what it was
//! given. The engine's three pieces of state are held in opaque structs, each
//! with a name for the plain values it was made from, and the results of the
//! deciding calls are named over those values.
use vstd::prelude::*;
use imagequant::{Attributes, Image, QuantizationResult};
use crate::raster::Color;

verus! {

#[verifier::external_type_specification]
#[verifier::external_body]
pub struct ExLiqError(imagequant::Error);

/// The engine's settings: palette size cap, speed, minimum and target quality.
pub type Settings = (u32, i32, u8, u8);

/// A raster handed to the engine: its pixels, width and height.
pub type RasterModel = (Seq<Color>, usize, usize);

/// A built palette: the settings and raster it was built from, whether error
/// diffusion is on, and the raster it last remapped, if any.
pub type PaletteModel = (Settings, RasterModel, bool, Option<RasterModel>);

/// An engine configuration.
#[verifier::external_body]
pub struct EngineConfig {
    attr: Attributes,
}

/// A raster copied into the engine, before any palette was built from it.
#[verifier::external_body]
pub struct EngineImage {
    img: Image<'static>,
}

/// A palette the engine built, with its remapping state.
#[verifier::external_body]
pub struct EnginePalette {
    res: QuantizationResult,
}

/// The settings a configuration holds.
pub uninterp spec fn config_of(c: EngineConfig) -> Settings;

/// The raster an image holds.
pub uninterp spec fn image_of(i: EngineImage) -> RasterModel;

/// What a built palette was made from and last did.
pub uninterp spec fn palette_of(p: EnginePalette) -> PaletteModel;

/// Whether the engine builds a palette for a raster under the given settings.
pub uninterp spec fn quantize_ok(s: Settings, raster: RasterModel) -> bool;

/// The palette and indices the engine gives when a palette built from
/// `source` under `s`, with diffusion on or off, remaps `target`; `None` if
/// the remapping fails.
pub uninterp spec fn remap_out(s: Settings, source: RasterModel, dither: bool, target: RasterModel) -> Option<(Seq<Color>, Seq<u8>)>;

/// The fidelity estimate of a built palette in a given remapping state.
pub uninterp spec fn remap_quality(p: PaletteModel) -> Option<u8>;

/// Relies on `imagequant::new`: a configuration with the engine's defaults.
#[verifier::external_body]
pub(crate) fn new_config() -> (r: EngineConfig) {
    EngineConfig { attr: imagequant::new() }
}

/// Relies on `Attributes::set_max_colors`: it accepts exactly 2 to 256, sets
/// the cap and leaves the other settings.
#[verifier::external_body]
pub(crate) fn set_max_colors(c: &mut EngineConfig, colors: u32) -> (r: Result<(), imagequant::Error>)
    ensures
        r.is_ok() == (2 <= colors <= 256),
        r.is_ok() ==> config_of(*final(c)) == (colors, config_of(*old(c)).1, config_of(*old(c)).2, config_of(*old(c)).3),
{
    c.attr.set_max_colors(colors)
}

/// Relies on `Attributes::set_speed`: it accepts exactly 1 to 10, sets the
/// speed and leaves the other settings.
#[verifier::external_body]
pub(crate) fn set_speed(c: &mut EngineConfig, speed: i32) -> (r: Result<(), imagequant::Error>)
    ensures
        r.is_ok() == (1 <= speed <= 10),
        r.is_ok() ==> config_of(*final(c)) == (config_of(*old(c)).0, speed, config_of(*old(c)).2, config_of(*old(c)).3),
{
    c.attr.set_speed(speed)
}

/// Relies on `Attributes::set_quality`: it accepts a target of at most 100
/// and a minimum no greater than the target, sets both and leaves the rest.
#[verifier::external_body]
pub(crate) fn set_quality(c: &mut EngineConfig, minimum: u8, target: u8) -> (r: Result<(), imagequant::Error>)
    ensures
        r.is_ok() == (target <= 100 && minimum <= target),
        r.is_ok() ==> config_of(*final(c)) == (config_of(*old(c)).0, config_of(*old(c)).1, minimum, target),
{
    c.attr.set_quality(minimum, target)
}

/// Relies on `Attributes::new_image`: copies the pixels into an image of the
/// given sides, read as sRGB (the default gamma, zero). It refuses only a
/// zero side, a buffer shorter than the sides, or sides beyond the engine's
/// size limits, which a raster of at most 2^26 pixels stays within.
#[verifier::external_body]
pub(crate) fn new_image(c: &EngineConfig, pixels: &Vec<Color>, width: usize, height: usize) -> (r: Result<EngineImage, imagequant::Error>)
    ensures
        r matches Ok(i) ==> image_of(i) == (pixels@, width, height),
        r.is_err() ==> !(1 <= width && 1 <= height && width * height <= 0x400_0000 && pixels@.len() == width * height),
{
    let rgba: Vec<imagequant::RGBA> = pixels.iter().map(|p| imagequant::RGBA::new(p.r, p.g, p.b, p.a)).collect();
    let img = c.attr.new_image(rgba, width, height, Default::default())?;
    Ok(EngineImage { img })
}

/// Relies on `Attributes::quantize`: builds a palette for the image under the
/// configuration; the result starts with full error diffusion (level 1).
#[verifier::external_body]
pub(crate) fn quantize(c: &EngineConfig, image: &mut EngineImage) -> (r: Result<EnginePalette, imagequant::Error>)
    ensures
        r.is_ok() == quantize_ok(config_of(*c), image_of(*old(image))),
        r matches Ok(p) ==> palette_of(p) == (config_of(*c), image_of(*old(image)), true, None::<RasterModel>),
{
    let res = c.attr.quantize(&mut image.img)?;
    Ok(EnginePalette { res })
}

/// Relies on `QuantizationResult::set_dithering_level`: level zero (the
/// default of the level's float type) turns error diffusion off and drops the
/// last remapping; zero is in the accepted range 0 to 1, so it cannot fail.
#[verifier::external_body]
pub(crate) fn disable_dithering(p: &mut EnginePalette) -> (r: Result<(), imagequant::Error>)
    ensures
        r.is_ok(),
        palette_of(*final(p)) == (palette_of(*old(p)).0, palette_of(*old(p)).1, false, None::<RasterModel>),
{
    p.res.set_dithering_level(Default::default())
}

/// Relies on `QuantizationResult::remapped`: the palette and one index per
/// pixel of the image. It works on a copy of the built palette, so the result
/// depends on the build and the image, not on earlier remappings.
#[verifier::external_body]
pub(crate) fn remapped(p: &mut EnginePalette, image: &mut EngineImage) -> (r: Result<(Vec<Color>, Vec<u8>), imagequant::Error>)
    ensures
        match remap_out(palette_of(*old(p)).0, palette_of(*old(p)).1, palette_of(*old(p)).2, image_of(*old(image))) {
            Some(out) => r matches Ok(v) && v.0@ == out.0 && v.1@ == out.1,
            None => r.is_err(),
        },
        r.is_ok() ==> palette_of(*final(p)) == (palette_of(*old(p)).0, palette_of(*old(p)).1, palette_of(*old(p)).2, Some(image_of(*old(image)))),
        r.is_err() ==> palette_of(*final(p)).0 == palette_of(*old(p)).0 && palette_of(*final(p)).1 == palette_of(*old(p)).1
            && palette_of(*final(p)).2 == palette_of(*old(p)).2,
{
    let (palette, indices) = p.res.remapped(&mut image.img)?;
    Ok((palette.iter().map(|c| Color { r: c.r, g: c.g, b: c.b, a: c.a }).collect(), indices))
}

/// Relies on `QuantizationResult::remapping_quality`: the estimate for the
/// last remapping, else for the build, on a 0 to 100 scale.
#[verifier::external_body]
pub(crate) fn remapping_quality(p: &EnginePalette) -> (r: Option<u8>)
    ensures
        r == remap_quality(palette_of(*p)),
        r matches Some(q) ==> q <= 100,
{
    p.res.remapping_quality()
}

} // verus!
