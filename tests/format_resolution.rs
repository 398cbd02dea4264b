use image_resizer::format::OutputFormat;

#[test]
fn png_is_resolved_without_quality() {
    assert_eq!(OutputFormat::from_string("png", None), Ok(OutputFormat::Png));
}

#[test]
fn png_ignores_quality() {
    assert_eq!(OutputFormat::from_string("png", Some(250)), Ok(OutputFormat::Png));
}

#[test]
fn jpeg_defaults_to_quality_85() {
    assert_eq!(OutputFormat::from_string("jpeg", None), Ok(OutputFormat::Jpeg(85)));
}

#[test]
fn jpg_defaults_to_quality_85() {
    assert_eq!(OutputFormat::from_string("jpg", None), Ok(OutputFormat::Jpeg(85)));
}

#[test]
fn webp_defaults_to_quality_80() {
    assert_eq!(OutputFormat::from_string("webp", None), Ok(OutputFormat::Webp(80)));
}

#[test]
fn names_match_case_insensitively() {
    assert_eq!(OutputFormat::from_string("PNG", None), Ok(OutputFormat::Png));
    assert_eq!(OutputFormat::from_string("JpEg", Some(40)), Ok(OutputFormat::Jpeg(40)));
    assert_eq!(OutputFormat::from_string("WEBP", None), Ok(OutputFormat::Webp(80)));
}

#[test]
fn jpeg_quality_boundary() {
    assert_eq!(OutputFormat::from_string("jpeg", Some(100)), Ok(OutputFormat::Jpeg(100)));
    assert_eq!(
        OutputFormat::from_string("jpeg", Some(101)),
        Err("JPEG quality must be between 0 and 100".to_string())
    );
}

#[test]
fn jpeg_quality_zero_is_accepted() {
    assert_eq!(OutputFormat::from_string("jpg", Some(0)), Ok(OutputFormat::Jpeg(0)));
}

#[test]
fn webp_quality_boundary() {
    assert_eq!(OutputFormat::from_string("webp", Some(100)), Ok(OutputFormat::Webp(100)));
    assert_eq!(
        OutputFormat::from_string("webp", Some(101)),
        Err("WebP quality must be between 0 and 100".to_string())
    );
}

#[test]
fn bmp_is_unsupported() {
    assert_eq!(
        OutputFormat::from_string("bmp", None),
        Err("Unsupported format: bmp".to_string())
    );
}

#[test]
fn unsupported_message_keeps_name_as_written() {
    assert_eq!(
        OutputFormat::from_string("GIF", None),
        Err("Unsupported format: GIF".to_string())
    );
}

#[test]
fn folded_name_is_matched_as_given() {
    assert_eq!(OutputFormat::from_folded("webp", "WebP", Some(7)), Ok(OutputFormat::Webp(7)));
    assert_eq!(
        OutputFormat::from_folded("WEBP", "WEBP", None),
        Err("Unsupported format: WEBP".to_string())
    );
}

#[test]
fn content_types() {
    assert_eq!(OutputFormat::Png.content_type(), "image/png");
    assert_eq!(OutputFormat::Jpeg(85).content_type(), "image/jpeg");
    assert_eq!(OutputFormat::Webp(80).content_type(), "image/webp");
}

#[test]
fn file_extensions() {
    assert_eq!(OutputFormat::Png.file_extension(), "png");
    assert_eq!(OutputFormat::Jpeg(85).file_extension(), "jpg");
    assert_eq!(OutputFormat::Webp(80).file_extension(), "webp");
}
