use std::io::Cursor;

use image::{DynamicImage, ImageOutputFormat, Rgb32FImage, RgbaImage};
use image_resizer::format::OutputFormat;
use image_resizer::transform::{read_image, resize_to_width, transform, write_image, TransformError};

fn encoded_square(side: u32, format: ImageOutputFormat) -> Vec<u8> {
    let mut img = RgbaImage::new(side, side);
    for (x, y, p) in img.enumerate_pixels_mut() {
        *p = image::Rgba([(x * 20) as u8, (y * 20) as u8, 90, 255]);
    }
    let mut out = Cursor::new(Vec::new());
    DynamicImage::ImageRgba8(img).write_to(&mut out, format).unwrap();
    out.into_inner()
}

#[test]
fn round_trip_resizes_width_and_keeps_height() {
    let source = encoded_square(10, ImageOutputFormat::Png);
    let out = transform(source, 5, OutputFormat::Png).unwrap();
    let decoded = image::load_from_memory(&out).unwrap();
    assert_eq!(decoded.width(), 5);
    assert_eq!(decoded.height(), 10);
}

#[test]
fn round_trip_into_jpeg() {
    let source = encoded_square(10, ImageOutputFormat::Png);
    let out = transform(source, 4, OutputFormat::Jpeg(85)).unwrap();
    assert_eq!(image::guess_format(&out).unwrap(), image::ImageFormat::Jpeg);
    let decoded = image::load_from_memory(&out).unwrap();
    assert_eq!((decoded.width(), decoded.height()), (4, 10));
}

#[test]
fn round_trip_into_webp() {
    let source = encoded_square(10, ImageOutputFormat::Png);
    let out = transform(source, 3, OutputFormat::Webp(80)).unwrap();
    assert_eq!(image::guess_format(&out).unwrap(), image::ImageFormat::WebP);
    let decoded = image::load_from_memory(&out).unwrap();
    assert_eq!((decoded.width(), decoded.height()), (3, 10));
}

#[test]
fn source_format_is_detected_from_content() {
    let source = encoded_square(6, ImageOutputFormat::Jpeg(90));
    let out = transform(source, 12, OutputFormat::Png).unwrap();
    assert_eq!(image::guess_format(&out).unwrap(), image::ImageFormat::Png);
    let decoded = image::load_from_memory(&out).unwrap();
    assert_eq!((decoded.width(), decoded.height()), (12, 6));
}

#[test]
fn empty_input_fails_to_decode() {
    assert!(read_image(Vec::new()).is_err());
    assert!(matches!(transform(Vec::new(), 5, OutputFormat::Png), Err(TransformError::Decode(_))));
}

#[test]
fn garbage_input_fails_to_decode() {
    let r = transform(b"definitely not an image".to_vec(), 5, OutputFormat::Png);
    match r {
        Err(TransformError::Decode(detail)) => assert!(detail.starts_with("Failed to decode image: ")),
        other => panic!("unexpected result: {:?}", other.map(|b| b.len())),
    }
}

#[test]
fn truncated_input_fails_to_decode() {
    let source = encoded_square(10, ImageOutputFormat::Png);
    let r = transform(source[..20].to_vec(), 5, OutputFormat::Png);
    assert!(matches!(r, Err(TransformError::Decode(_))));
}

fn float_image_as_exr() -> Vec<u8> {
    let mut out = Cursor::new(Vec::new());
    DynamicImage::ImageRgb32F(Rgb32FImage::new(2, 2))
        .write_to(&mut out, ImageOutputFormat::OpenExr)
        .unwrap();
    out.into_inner()
}

#[test]
fn unsupported_pixel_type_fails_to_encode() {
    let img = read_image(float_image_as_exr()).unwrap();
    let err = write_image(img, OutputFormat::Jpeg(80)).unwrap_err();
    assert!(err.starts_with("Failed to encode image: "));
}

#[test]
fn unsupported_pixel_type_is_an_encode_error_in_transform() {
    let r = transform(float_image_as_exr(), 1, OutputFormat::Jpeg(80));
    match r {
        Err(TransformError::Encode(detail)) => assert!(detail.starts_with("Failed to encode image: ")),
        other => panic!("unexpected result: {:?}", other.map(|b| b.len())),
    }
}

#[test]
fn resize_keeps_height() {
    let img = read_image(encoded_square(8, ImageOutputFormat::Png)).unwrap();
    assert_eq!((img.width(), img.height()), (8, 8));
    let resized = resize_to_width(&img, 2);
    assert_eq!((resized.width(), resized.height()), (2, 8));
}

#[test]
fn truncated_png_signature_fails_to_decode() {
    assert!(read_image(vec![0x89, 0x50, 0x4E, 0x47]).is_err());
}

#[test]
fn webp_quality_does_not_change_the_encoding() {
    let source = encoded_square(6, ImageOutputFormat::Png);
    let low = write_image(read_image(source.clone()).unwrap(), OutputFormat::Webp(10)).unwrap();
    let high = write_image(read_image(source).unwrap(), OutputFormat::Webp(100)).unwrap();
    assert_eq!(low, high);
}

#[test]
fn jpeg_quality_is_passed_to_the_encoder() {
    let source = encoded_square(6, ImageOutputFormat::Png);
    let ours = write_image(read_image(source.clone()).unwrap(), OutputFormat::Jpeg(37)).unwrap();
    let mut direct = Cursor::new(Vec::new());
    image::load_from_memory(&source)
        .unwrap()
        .write_to(&mut direct, ImageOutputFormat::Jpeg(37))
        .unwrap();
    assert_eq!(ours, direct.into_inner());
}

#[test]
fn same_input_same_output() {
    let source = encoded_square(10, ImageOutputFormat::Png);
    let a = transform(source.clone(), 7, OutputFormat::Png).unwrap();
    let b = transform(source, 7, OutputFormat::Png).unwrap();
    assert_eq!(a, b);
}

#[test]
fn transform_error_messages() {
    assert_eq!(TransformError::Encode("boom".to_string()).message(), "failed to write image: boom");
    assert_eq!(TransformError::Decode("bad".to_string()).message(), "failed to read image: bad");
}
