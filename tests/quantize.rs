use palette_quant::palette::{all_indices_below, assemble_result, flatten_palette};
use palette_quant::raster::{mean_of, to_colors, validate_request, MAX_PIXELS};
use palette_quant::{quantize_image, quantize_image_with, Color, QuantError, QuantOptions, Quantizer};

fn flat_raster(width: u32, height: u32, c: [u8; 4]) -> Vec<u8> {
    let mut v = Vec::new();
    for _ in 0..(width * height) {
        v.extend_from_slice(&c);
    }
    v
}

fn gray_ramp(width: u32, height: u32) -> Vec<u8> {
    let mut v = Vec::new();
    for _ in 0..height {
        for x in 0..width {
            let g = (x * 255 / (width - 1)) as u8;
            v.extend_from_slice(&[g, g, g, 255]);
        }
    }
    v
}

fn colorful(width: u32, height: u32) -> Vec<u8> {
    let mut v = Vec::new();
    for y in 0..height {
        for x in 0..width {
            v.extend_from_slice(&[(x * 7 % 256) as u8, (y * 13 % 256) as u8, ((x + y) * 5 % 256) as u8, 255]);
        }
    }
    v
}

fn permissive() -> QuantOptions {
    QuantOptions { speed: 5, min_quality: 0, target_quality: 100, dithering: true }
}

#[test]
fn validate_accepts_well_formed_request() {
    assert_eq!(validate_request(4 * 6, 2, 3, 16), Ok(6));
    assert_eq!(validate_request(4, 1, 1, 1), Ok(1));
    assert_eq!(validate_request(4, 1, 1, 256), Ok(1));
}

#[test]
fn validate_rejects_bad_dimensions() {
    assert_eq!(validate_request(4 * 6 - 1, 2, 3, 16), Err(QuantError::InvalidDimensions));
    assert_eq!(validate_request(4 * 6 + 4, 2, 3, 16), Err(QuantError::InvalidDimensions));
    assert_eq!(validate_request(0, 0, 3, 16), Err(QuantError::InvalidDimensions));
    assert_eq!(validate_request(0, 3, 0, 16), Err(QuantError::InvalidDimensions));
}

#[test]
fn validate_rejects_oversized_raster() {
    let w: u32 = 1 << 14;
    let h: u32 = (MAX_PIXELS as u32 >> 14) + 1;
    let len = (w as usize) * (h as usize) * 4;
    assert_eq!(validate_request(len, w, h, 16), Err(QuantError::Unsupported));
    let h_ok: u32 = MAX_PIXELS as u32 >> 14;
    let len_ok = (w as usize) * (h_ok as usize) * 4;
    assert_eq!(validate_request(len_ok, w, h_ok, 16), Ok(MAX_PIXELS as usize));
}

#[test]
fn validate_rejects_bad_max_colors() {
    assert_eq!(validate_request(4, 1, 1, 0), Err(QuantError::InvalidArgument));
    assert_eq!(validate_request(4, 1, 1, 257), Err(QuantError::InvalidArgument));
}

#[test]
fn quantize_rejects_bad_options() {
    let px = flat_raster(2, 2, [1, 2, 3, 255]);
    let fast = QuantOptions { speed: 11, ..permissive() };
    assert!(matches!(quantize_image_with(&px, 2, 2, 8, &fast), Err(QuantError::InvalidArgument)));
    let inverted = QuantOptions { min_quality: 90, target_quality: 80, ..permissive() };
    assert!(matches!(quantize_image_with(&px, 2, 2, 8, &inverted), Err(QuantError::InvalidArgument)));
    let over = QuantOptions { target_quality: 101, ..permissive() };
    assert!(matches!(quantize_image_with(&px, 2, 2, 8, &over), Err(QuantError::InvalidArgument)));
    assert!(matches!(quantize_image(&px, 2, 2, 0), Err(QuantError::InvalidArgument)));
}

#[test]
fn quantize_rejects_bad_buffer() {
    let px = flat_raster(2, 2, [1, 2, 3, 255]);
    assert!(matches!(quantize_image(&px[..15], 2, 2, 8), Err(QuantError::InvalidDimensions)));
    assert!(matches!(quantize_image(&[], 0, 0, 8), Err(QuantError::InvalidDimensions)));
}

#[test]
fn to_colors_reads_pixels_in_order() {
    let c = to_colors(&[1, 2, 3, 4, 5, 6, 7, 8]);
    assert_eq!(c, vec![Color { r: 1, g: 2, b: 3, a: 4 }, Color { r: 5, g: 6, b: 7, a: 8 }]);
    assert!(to_colors(&[]).is_empty());
}

#[test]
fn flatten_palette_interleaves_channels() {
    let p = vec![Color { r: 9, g: 8, b: 7, a: 6 }, Color { r: 1, g: 2, b: 3, a: 4 }];
    assert_eq!(flatten_palette(&p), vec![9, 8, 7, 6, 1, 2, 3, 4]);
    assert_eq!(to_colors(&flatten_palette(&p)), p);
}

#[test]
fn index_check_finds_out_of_range_entry() {
    assert!(all_indices_below(&vec![0, 1, 2], 3));
    assert!(!all_indices_below(&vec![0, 3, 1], 3));
    assert!(all_indices_below(&vec![], 0));
}

#[test]
fn assemble_accepts_consistent_output() {
    let p = vec![Color { r: 0, g: 0, b: 0, a: 255 }, Color { r: 255, g: 255, b: 255, a: 255 }];
    let q = assemble_result(p, vec![0, 1, 1, 0], Some(80), 4, 2).unwrap();
    assert_eq!(q.palette(), &vec![0, 0, 0, 255, 255, 255, 255, 255]);
    assert_eq!(q.indices(), &vec![0, 1, 1, 0]);
    assert_eq!(q.palette_len(), 8);
    assert_eq!(q.indices_len(), 4);
    assert_eq!(q.quality(), Some(80));
}

#[test]
fn assemble_rejects_inconsistent_output() {
    let two = vec![Color { r: 0, g: 0, b: 0, a: 255 }, Color { r: 255, g: 255, b: 255, a: 255 }];
    assert!(matches!(assemble_result(two.clone(), vec![0, 2], None, 2, 2), Err(QuantError::QuantizationFailed)));
    assert!(matches!(assemble_result(two.clone(), vec![0, 1, 0], None, 2, 2), Err(QuantError::QuantizationFailed)));
    assert!(matches!(assemble_result(two, vec![0, 1], None, 2, 1), Err(QuantError::QuantizationFailed)));
    assert!(matches!(assemble_result(vec![], vec![], None, 0, 2), Err(QuantError::QuantizationFailed)));
}

#[test]
fn deterministic_output() {
    let px = colorful(32, 24);
    let a = quantize_image_with(&px, 32, 24, 16, &permissive()).unwrap();
    let b = quantize_image_with(&px, 32, 24, 16, &permissive()).unwrap();
    assert_eq!(a.palette(), b.palette());
    assert_eq!(a.indices(), b.indices());
}

#[test]
fn indices_and_palette_within_bounds() {
    let px = colorful(40, 30);
    for k in [2u32, 5, 16, 64, 256] {
        let q = quantize_image_with(&px, 40, 30, k, &permissive()).unwrap();
        let n = q.palette_len() / 4;
        assert_eq!(q.palette_len() % 4, 0);
        assert!(n >= 1 && n <= k as usize);
        assert_eq!(q.indices_len(), 40 * 30);
        assert!(q.indices().iter().all(|&i| (i as usize) < n));
        if let Some(s) = q.quality() {
            assert!(s <= 100);
        }
    }
}

#[test]
fn monochrome_gives_single_entry() {
    let c = [12u8, 34, 56, 255];
    let px = flat_raster(8, 8, c);
    for k in [1u32, 2, 16, 256] {
        let q = quantize_image(&px, 8, 8, k).unwrap();
        assert_eq!(q.palette(), &c.to_vec());
        assert!(q.indices().iter().all(|&i| i == 0));
    }
}

#[test]
fn grayscale_ramp_splits_in_two() {
    let (w, h) = (64u32, 4u32);
    let px = gray_ramp(w, h);
    let opts = QuantOptions { dithering: false, ..permissive() };
    let q = quantize_image_with(&px, w, h, 2, &opts).unwrap();
    assert_eq!(q.palette_len(), 8);
    let pal = q.palette();
    let dark = if pal[0] < pal[4] { 0u8 } else { 1u8 };
    let lum = |i: u8| pal[4 * i as usize] as u32;
    // the two entries sit on either side of mid-gray, one per half of the ramp
    assert!(lum(dark) < 100, "dark entry {:?}", pal);
    assert!(lum(1 - dark) > 155, "light entry {:?}", pal);
    for y in 0..h as usize {
        let row = &q.indices()[y * w as usize..(y + 1) * w as usize];
        assert_eq!(row[0], dark);
        assert_eq!(row[w as usize - 1], 1 - dark);
        let switches = row.windows(2).filter(|p| p[0] != p[1]).count();
        assert_eq!(switches, 1);
    }
}

#[test]
fn quality_does_not_drop_with_more_colors() {
    let px = colorful(48, 32);
    let mut last = 0u8;
    for k in [2u32, 8, 32, 128] {
        let q = quantize_image_with(&px, 48, 32, k, &permissive()).unwrap();
        let s = q.quality().expect("the engine reports a quality for a built palette");
        assert!(s >= last, "quality {} after {} at {} colors", s, last, k);
        last = s;
    }
}

#[test]
fn dithering_keeps_flat_region_mean() {
    let c = [100u8, 100, 100, 255];
    let (w, h) = (32u32, 32u32);
    let mut px = flat_raster(w, h, c);
    // two far-off pixels so the palette cannot hold the flat color exactly
    px[0..4].copy_from_slice(&[0, 0, 0, 255]);
    let last = px.len() - 4;
    px[last..].copy_from_slice(&[255, 255, 255, 255]);
    let mean_error = |dither: bool| -> f64 {
        let opts = QuantOptions { dithering: dither, ..permissive() };
        let q = quantize_image_with(&px, w, h, 2, &opts).unwrap();
        let pal = q.palette();
        let total: f64 = q.indices()[1..q.indices().len() - 1].iter().map(|&i| pal[4 * i as usize] as f64).sum();
        let mean = total / (q.indices().len() - 2) as f64;
        (mean - c[0] as f64).abs()
    };
    assert!(mean_error(true) < mean_error(false));
}

#[test]
fn remap_with_built_palette_is_repeatable() {
    let px = colorful(20, 20);
    let mut qz = Quantizer::build(&px, 20, 20, 12, &permissive()).unwrap();
    let a = qz.remap(&px, 20, 20).unwrap();
    let b = qz.remap(&px, 20, 20).unwrap();
    assert_eq!(a.palette(), b.palette());
    assert_eq!(a.indices(), b.indices());
    let other = gray_ramp(10, 5);
    let c = qz.remap(&other, 10, 5).unwrap();
    assert_eq!(c.indices_len(), 50);
    assert!(c.indices().iter().all(|&i| (i as usize) < c.palette_len() / 4));
    assert!(matches!(qz.remap(&other, 10, 6), Err(QuantError::InvalidDimensions)));
}

#[test]
fn single_entry_palette_is_mean_color() {
    let px = vec![0, 10, 20, 255, 100, 30, 40, 255, 50, 50, 0, 255, 10, 1, 3, 251];
    let q = quantize_image(&px, 2, 2, 1).unwrap();
    assert_eq!(q.palette(), &vec![40, 22, 15, 254]);
    assert_eq!(q.indices(), &vec![0, 0, 0, 0]);
    assert_eq!(q.quality(), None);
}

#[test]
fn mean_of_rounds_down() {
    let c = mean_of(&vec![Color { r: 1, g: 2, b: 255, a: 0 }, Color { r: 2, g: 2, b: 254, a: 1 }]);
    assert_eq!(c, Color { r: 1, g: 2, b: 254, a: 0 });
}

#[test]
fn standard_options_have_no_floor() {
    let o = QuantOptions::new();
    assert_eq!(o, QuantOptions { speed: 5, min_quality: 0, target_quality: 99, dithering: true });
    let px = gray_ramp(64, 2);
    let q = quantize_image(&px, 64, 2, 2).unwrap();
    assert_eq!(q.palette_len(), 8);
}

#[test]
fn remap_reports_quality_of_its_raster() {
    let px = colorful(24, 24);
    let mut qz = Quantizer::build(&px, 24, 24, 8, &permissive()).unwrap();
    let own = qz.remap(&px, 24, 24).unwrap();
    let flat = flat_raster(24, 24, [own.palette()[0], own.palette()[1], own.palette()[2], own.palette()[3]]);
    let exact = qz.remap(&flat, 24, 24).unwrap();
    assert!(own.quality().is_some());
    assert!(exact.quality().is_some());
    assert!(exact.indices().iter().all(|&i| i == exact.indices()[0]));
}
