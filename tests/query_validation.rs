use image_resizer::format::OutputFormat;
use image_resizer::query::{parse_unsigned, validate, QueryParams};

fn query(url: Option<&str>, w: Option<&str>, format: Option<&str>, quality: Option<&str>) -> QueryParams {
    QueryParams {
        url: url.map(|s| s.to_string()),
        w: w.map(|s| s.to_string()),
        format: format.map(|s| s.to_string()),
        quality: quality.map(|s| s.to_string()),
    }
}

#[test]
fn missing_url_is_forbidden() {
    let r = validate(&query(None, Some("5"), None, None));
    assert_eq!(r.err(), Some((403, "'url' parameter is not provided.".to_string())));
}

#[test]
fn missing_url_is_checked_before_width() {
    let r = validate(&query(None, Some("abc"), None, None));
    assert_eq!(r.err(), Some((403, "'url' parameter is not provided.".to_string())));
}

#[test]
fn non_numeric_width_is_bad_request() {
    let r = validate(&query(Some("https://example.com/a.png"), Some("abc"), None, None));
    assert_eq!(r.err(), Some((400, "'w' parameter must be a valid number.".to_string())));
}

#[test]
fn missing_width_is_forbidden() {
    let r = validate(&query(Some("https://example.com/a.png"), None, None, None));
    assert_eq!(r.err(), Some((403, "'w' parameter not provided.".to_string())));
}

#[test]
fn zero_width_is_bad_request() {
    let r = validate(&query(Some("https://example.com/a.png"), Some("0"), None, None));
    assert_eq!(r.err(), Some((400, "'w' parameter must be a valid number.".to_string())));
}

#[test]
fn width_beyond_u32_is_bad_request() {
    let r = validate(&query(Some("https://example.com/a.png"), Some("4294967296"), None, None));
    assert_eq!(r.err(), Some((400, "'w' parameter must be a valid number.".to_string())));
}

#[test]
fn unsupported_format_is_bad_request() {
    let r = validate(&query(Some("https://example.com/a.png"), Some("5"), Some("bmp"), None));
    assert_eq!(r.err(), Some((400, "Invalid format: Unsupported format: bmp".to_string())));
}

#[test]
fn out_of_range_quality_is_bad_request() {
    let r = validate(&query(Some("https://example.com/a.png"), Some("5"), Some("jpeg"), Some("101")));
    assert_eq!(
        r.err(),
        Some((400, "Invalid format: JPEG quality must be between 0 and 100".to_string()))
    );
}

#[test]
fn valid_query_defaults_to_png() {
    let req = validate(&query(Some("https://example.com/a.png"), Some("320"), None, None)).unwrap();
    assert_eq!(req.url, "https://example.com/a.png");
    assert_eq!(req.width, 320);
    assert_eq!(req.format, OutputFormat::Png);
}

#[test]
fn valid_query_with_jpeg_quality() {
    let req = validate(&query(Some("u"), Some("+12"), Some("JPG"), Some("60"))).unwrap();
    assert_eq!(req.width, 12);
    assert_eq!(req.format, OutputFormat::Jpeg(60));
}

#[test]
fn unreadable_quality_counts_as_absent() {
    let req = validate(&query(Some("u"), Some("8"), Some("webp"), Some("high"))).unwrap();
    assert_eq!(req.format, OutputFormat::Webp(80));
}

#[test]
fn quality_above_255_is_out_of_range() {
    let r = validate(&query(Some("u"), Some("8"), Some("jpeg"), Some("300")));
    assert_eq!(
        r.err(),
        Some((400, "Invalid format: JPEG quality must be between 0 and 100".to_string()))
    );
    let r = validate(&query(Some("u"), Some("8"), Some("webp"), Some("99999999999999")));
    assert_eq!(
        r.err(),
        Some((400, "Invalid format: WebP quality must be between 0 and 100".to_string()))
    );
    let req = validate(&query(Some("u"), Some("8"), Some("png"), Some("300"))).unwrap();
    assert_eq!(req.format, OutputFormat::Png);
}

#[test]
fn capped_parse() {
    assert_eq!(image_resizer::query::parse_capped("300", 255), Some(255));
    assert_eq!(image_resizer::query::parse_capped("+42", 255), Some(42));
    assert_eq!(image_resizer::query::parse_capped("99999999999999999999", 4294967296), Some(4294967296));
    assert_eq!(image_resizer::query::parse_capped("4x", 255), None);
}

#[test]
fn parses_unsigned_numbers_as_std_does() {
    for text in ["0", "7", "+7", "007", "255", "256", "", "+", "-1", " 1", "1a", "4294967295", "4294967296"] {
        assert_eq!(parse_unsigned(text, u32::MAX), text.parse::<u32>().ok(), "{}", text);
        assert_eq!(parse_unsigned(text, 255), text.parse::<u8>().ok().map(u32::from), "{}", text);
    }
}
