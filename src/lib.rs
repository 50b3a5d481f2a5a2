//! Reduces an RGBA8 raster to an indexed palette plus one palette index per
//! pixel, with libimagequant doing the palette search and the remapping.
//!
//! The verified part is everything around the engine: the validation of the
//! request, the reading of the byte buffer as pixels, the configuration handed
//! to the engine, and the checks and flattening of what the engine returns.
use vstd::prelude::*;

pub mod raster;
pub mod palette;
mod engine;
pub mod quantize;

pub use palette::QuantResult;
pub use quantize::{QuantOptions, Quantizer, quantize_image, quantize_image_with};
pub use raster::{Color, QuantError};
