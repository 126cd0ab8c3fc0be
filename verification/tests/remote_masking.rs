use image::{DynamicImage, RgbaImage};

use rapidraw::remote_masking::{default_alignment, encode_linear_tiff, rgb16_native_bytes, Rgb16Image};

fn rgb16_of(img: &DynamicImage) -> Rgb16Image {
    let rgb16 = img.to_rgb16();
    let (w, h) = (rgb16.width(), rgb16.height());
    Rgb16Image::from_raw(w, h, rgb16.into_raw()).unwrap()
}

#[test]
fn tiff_export_roundtrip() {
    let img = DynamicImage::ImageRgba8(RgbaImage::from_fn(8, 6, |x, y| {
        image::Rgba([x as u8 * 10, y as u8 * 10, 128, 255])
    }));
    let bytes = encode_linear_tiff(&rgb16_of(&img)).unwrap();
    let back = image::load_from_memory(&bytes).unwrap();
    assert_eq!((back.width(), back.height()), (8, 6));
    assert!(matches!(back.color(), image::ColorType::Rgb16));
}

#[test]
fn tiff_export_keeps_every_sample() {
    let samples: Vec<u16> = (0..2 * 3 * 3).map(|i| (i as u16) * 3001 + 7).collect();
    let img = Rgb16Image::from_raw(3, 2, samples.clone()).unwrap();
    let bytes = encode_linear_tiff(&img).unwrap();
    let back = image::load_from_memory(&bytes).unwrap().to_rgb16();
    assert_eq!(back.into_raw(), samples);
}

#[test]
fn samples_are_laid_out_in_native_byte_order() {
    let expected: Vec<u8> = [0x1234u16, 0x00ff, 0xff00].iter().flat_map(|v| v.to_ne_bytes()).collect();
    assert_eq!(rgb16_native_bytes(&vec![0x1234, 0x00ff, 0xff00]), expected);
    if 1u16.to_ne_bytes()[0] == 1 {
        assert_eq!(expected, vec![0x34, 0x12, 0xff, 0x00, 0x00, 0xff]);
    } else {
        assert_eq!(expected, vec![0x12, 0x34, 0x00, 0xff, 0xff, 0x00]);
    }
    assert!(rgb16_native_bytes(&Vec::new()).is_empty());
}

#[test]
fn empty_images_are_refused() {
    assert!(encode_linear_tiff(&Rgb16Image::from_raw(0, 7, Vec::new()).unwrap()).is_err());
    assert!(encode_linear_tiff(&Rgb16Image::from_raw(7, 0, Vec::new()).unwrap()).is_err());
    assert!(encode_linear_tiff(&Rgb16Image::from_raw(1, 1, vec![1, 2, 3]).unwrap()).is_ok());
}

#[test]
fn images_need_three_samples_per_pixel() {
    assert!(Rgb16Image::from_raw(2, 2, vec![0; 11]).is_none());
    assert!(Rgb16Image::from_raw(2, 2, vec![0; 13]).is_none());
    assert!(Rgb16Image::from_raw(u32::MAX, u32::MAX, vec![0; 3]).is_none());
    let img = Rgb16Image::from_raw(2, 2, vec![5; 12]).unwrap();
    assert_eq!((img.width(), img.height(), img.samples().len()), (2, 2, 12));
    assert!(Rgb16Image::from_raw(0, 7, Vec::new()).is_some());
}

#[test]
fn alignment_defaults_to_exact() {
    assert_eq!(default_alignment(), "exact");
}
