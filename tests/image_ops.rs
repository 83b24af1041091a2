use hypetrigger::error::ErrorKind;
use hypetrigger::image::{RgbImage, RgbaImage};
use hypetrigger::iter::ImageIterator;
use hypetrigger::photon::{
    center_square_crop, crop, ensure_minimum_size, ensure_size, ensure_square, is_square,
    rgb24_to_rgba32, rgb_to_photon, rgba32_to_rgb24, Crop,
};
use hypetrigger::tensorflow::{model_input_bytes, TensorflowTrigger, TENSOR_SIZE};
use hypetrigger::tesseract::{ocr_input, TesseractTrigger, SOURCE_RESOLUTION_DPI};
use hypetrigger::threshold::{threshold_color_distance_rgba, ThresholdFilter};

fn gradient(width: u32, height: u32) -> RgbaImage {
    let mut pixels = Vec::new();
    for y in 0..height {
        for x in 0..width {
            pixels.push((x * 10) as u8);
            pixels.push((y * 10) as u8);
            pixels.push(((x + y) * 3) as u8);
            pixels.push(255);
        }
    }
    RgbaImage::new(pixels, width, height).unwrap()
}

#[test]
fn test_from_frame() {
    let rgb = RgbImage::from_vec(2, 1, vec![1, 2, 3, 4, 5, 6]).unwrap();
    let rgba = rgb_to_photon(&rgb);
    assert_eq!(rgba.get_width(), 2);
    assert_eq!(rgba.get_height(), 1);
    assert_eq!(rgba.get_raw_pixels(), vec![1, 2, 3, 255, 4, 5, 6, 255]);
}

#[test]
fn rgb_rgba_round_trip() {
    let rgb: Vec<u8> = (0..30).map(|i| (i * 7) as u8).collect();
    let rgba = rgb24_to_rgba32(rgb.clone());
    assert_eq!(rgba.len(), 40);
    assert_eq!(&rgba[0..8], &[0, 7, 14, 255, 21, 28, 35, 255]);
    assert_eq!(rgba32_to_rgb24(rgba), rgb);
    assert_eq!(rgb24_to_rgba32(vec![]), Vec::<u8>::new());
}

#[test]
fn rgba_to_rgb_drops_alpha() {
    assert_eq!(rgba32_to_rgb24(vec![9, 8, 7, 6, 5, 4, 3, 2]), vec![9, 8, 7, 5, 4, 3]);
}

#[test]
fn image_size_mismatch_is_refused() {
    let e = RgbaImage::new(vec![0; 7], 1, 2).unwrap_err();
    assert_eq!(e.kind, ErrorKind::FrameGeometry);
    let e = RgbImage::from_vec(2, 2, vec![0; 11]).unwrap_err();
    assert_eq!(e.kind, ErrorKind::FrameGeometry);
}

#[test]
fn whole_image_crop_is_identity() {
    let img = gradient(7, 5);
    let c = Crop { left_percent: 0, top_percent: 0, width_percent: 100, height_percent: 100 };
    let out = c.apply(img.clone());
    assert_eq!(out.get_width(), 7);
    assert_eq!(out.get_height(), 5);
    assert_eq!(out.get_raw_pixels(), img.get_raw_pixels());
}

#[test]
fn crop_by_percentages() {
    let img = gradient(10, 10);
    let c = Crop { left_percent: 80, top_percent: 35, width_percent: 10, height_percent: 30 };
    let out = c.apply(img);
    // x1 = 8, y1 = 3, x2 = 9, y2 = 6
    assert_eq!((out.get_width(), out.get_height()), (1, 3));
    assert_eq!(out.get_raw_pixels(), vec![80, 30, 33, 255, 80, 40, 36, 255, 80, 50, 39, 255]);
}

#[test]
fn crop_by_pixels() {
    let img = gradient(4, 3);
    let out = crop(&img, 1, 1, 3, 2);
    assert_eq!((out.get_width(), out.get_height()), (2, 1));
    assert_eq!(out.get_raw_pixels(), vec![10, 10, 6, 255, 20, 10, 9, 255]);
    let empty = crop(&img, 2, 1, 2, 3);
    assert_eq!((empty.get_width(), empty.get_height()), (0, 2));
    assert!(empty.get_raw_pixels().is_empty());
}

#[test]
fn center_square_of_wide_image() {
    let img = gradient(5, 3);
    assert!(!is_square(&img));
    let out = center_square_crop(img.clone());
    assert_eq!((out.get_width(), out.get_height()), (3, 3));
    assert_eq!(&out.get_raw_pixels()[0..4], &[10, 0, 3, 255]);
    let same = ensure_square(gradient(4, 4));
    assert_eq!(same.get_raw_pixels(), gradient(4, 4).get_raw_pixels());
}

#[test]
fn square_then_size_is_exact() {
    for (w, h, s) in [(9, 4, 5), (3, 8, 16), (6, 6, 6), (6, 6, 2)] {
        let out = ensure_size(ensure_square(gradient(w, h)), s, s);
        assert_eq!((out.get_width(), out.get_height()), (s, s));
        assert_eq!(out.get_raw_pixels().len(), (s * s * 4) as usize);
    }
}

#[test]
fn ensure_size_resamples_when_needed() {
    let img = gradient(4, 4);
    let out = ensure_size(img.clone(), 8, 2);
    assert_eq!((out.get_width(), out.get_height()), (8, 2));
    assert_eq!(out.get_raw_pixels().len(), 64);
    assert_ne!(out.get_raw_pixels(), img.get_raw_pixels());
}

#[test]
fn minimum_size_scales_short_side() {
    let out = ensure_minimum_size(&gradient(10, 20), 32);
    assert_eq!((out.get_width(), out.get_height()), (32, 64));
    let out = ensure_minimum_size(&gradient(100, 10), 32);
    assert_eq!((out.get_width(), out.get_height()), (320, 32));
    let out = ensure_minimum_size(&gradient(3, 7), 32);
    assert_eq!((out.get_width(), out.get_height()), (32, 74));
    assert!(out.get_width().min(out.get_height()) >= 32);
    let big = gradient(40, 33);
    let out = ensure_minimum_size(&big, 32);
    assert_eq!(out.get_raw_pixels(), big.get_raw_pixels());
}

#[test]
fn threshold_binarizes_and_is_idempotent() {
    let filter = ThresholdFilter { r: 0, g: 0, b: 0, threshold: 100 };
    assert_eq!(filter.threshold, 100);
    let is_far = |r: u8, g: u8, b: u8| r as u32 + g as u32 + b as u32 >= 300;
    let img = RgbaImage::new(vec![200, 200, 200, 10, 5, 5, 5, 255], 2, 1).unwrap();
    let once = filter.apply(img, &is_far);
    assert_eq!(once.get_raw_pixels(), vec![255, 255, 255, 255, 0, 0, 0, 255]);
    let twice = filter.apply(once.clone(), &is_far);
    assert_eq!(twice.get_raw_pixels(), once.get_raw_pixels());
    let raw = threshold_color_distance_rgba(&vec![], &is_far);
    assert!(raw.is_empty());
}

#[test]
fn ocr_preparation_pads_and_scales() {
    let trigger = TesseractTrigger::new();
    let keep = |_: u8, _: u8, _: u8| false;
    let out = trigger.preprocess_image(gradient(2, 2), &keep).unwrap();
    assert_eq!((out.get_width(), out.get_height()), (96, 96));
    let px = out.get_raw_pixels();
    assert_eq!(&px[0..4], &[255, 255, 255, 255]);
    let last = px.len() - 4;
    assert_eq!(&px[last..], &[255, 255, 255, 255]);
}

#[test]
fn ocr_preparation_with_filter() {
    let mut trigger = TesseractTrigger::new();
    trigger.threshold_filter = Some(ThresholdFilter { r: 255, g: 255, b: 255, threshold: 10 });
    let all_far = |_: u8, _: u8, _: u8| true;
    let out = trigger.preprocess_image(gradient(40, 40), &all_far).unwrap();
    assert_eq!((out.get_width(), out.get_height()), (104, 104));
    assert!(out.get_raw_pixels().iter().all(|b| *b == 255));
}

#[test]
fn ocr_preparation_refuses_empty_region() {
    let mut trigger = TesseractTrigger::new();
    trigger.crop = Some(Crop { left_percent: 10, top_percent: 10, width_percent: 1, height_percent: 1 });
    let keep = |_: u8, _: u8, _: u8| false;
    let e = trigger.preprocess_image(gradient(20, 20), &keep).unwrap_err();
    assert_eq!(e.kind, ErrorKind::FrameGeometry);
}

#[test]
fn ocr_input_describes_rows() {
    let input = ocr_input(gradient(3, 2)).unwrap();
    assert_eq!((input.width, input.height), (3, 2));
    assert_eq!(input.bytes_per_pixel, 4);
    assert_eq!(input.bytes_per_line, 12);
    assert_eq!(input.source_resolution, SOURCE_RESOLUTION_DPI);
    assert_eq!(input.pixels.len(), 24);
}

#[test]
fn classifier_preparation_is_model_sized() {
    let trigger = TensorflowTrigger::new(None);
    let out = trigger.preprocess_image(gradient(30, 20)).unwrap();
    assert_eq!((out.get_width(), out.get_height()), (TENSOR_SIZE, TENSOR_SIZE));
    let bytes = model_input_bytes(&out);
    assert_eq!(bytes.len(), 224 * 224 * 3);
    let cropped = TensorflowTrigger::new(Some(Crop {
        left_percent: 0,
        top_percent: 0,
        width_percent: 1,
        height_percent: 100,
    }));
    let e = cropped.preprocess_image(gradient(30, 20)).unwrap_err();
    assert_eq!(e.kind, ErrorKind::FrameGeometry);
}

#[test]
fn image_iterator_walks_columns() {
    let mut it = ImageIterator::new(2, 3);
    let mut seen = Vec::new();
    while let Some(p) = it.next() {
        seen.push(p);
    }
    assert_eq!(seen, vec![(0, 0), (0, 1), (0, 2), (1, 0), (1, 1), (1, 2)]);
    let mut empty = ImageIterator::with_dimension(&(4, 0));
    assert_eq!(empty.next(), None);
}

#[test]
fn ocr_input_refuses_oversized_rows() {
    let wide = RgbaImage::new(vec![], 600_000_000, 0).unwrap();
    let e = ocr_input(wide).unwrap_err();
    assert_eq!(e.kind, ErrorKind::FrameGeometry);
}

#[test]
fn crop_past_half_is_accepted_when_it_fits() {
    let img = gradient(3, 1);
    let c = Crop { left_percent: 50, top_percent: 0, width_percent: 60, height_percent: 100 };
    assert!(c.fits_image(3, 1));
    let out = c.apply(img);
    assert_eq!((out.get_width(), out.get_height()), (1, 1));
    assert_eq!(out.get_raw_pixels(), vec![10, 0, 3, 255]);
}

#[test]
fn crop_outside_frame_is_refused() {
    let mut trigger = TesseractTrigger::new();
    trigger.crop = Some(Crop { left_percent: 90, top_percent: 0, width_percent: 50, height_percent: 100 });
    assert!(!trigger.crop.unwrap().fits_image(10, 10));
    let keep = |_: u8, _: u8, _: u8| false;
    let e = trigger.preprocess_image(gradient(10, 10), &keep).unwrap_err();
    assert_eq!(e.kind, ErrorKind::FrameGeometry);
    let classifier = TensorflowTrigger::new(trigger.crop);
    assert_eq!(classifier.preprocess_image(gradient(10, 10)).unwrap_err().kind, ErrorKind::FrameGeometry);
}

#[test]
fn minimum_size_zero_keeps_empty_image() {
    let empty = RgbaImage::new(vec![], 0, 0).unwrap();
    let out = ensure_minimum_size(&empty, 0);
    assert_eq!((out.get_width(), out.get_height()), (0, 0));
    assert!(out.get_raw_pixels().is_empty());
}
