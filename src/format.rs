//! Resolution of the requested output format and quality.
use vstd::prelude::*;
use vstd::string::*;

verus! {

/// Quality used for JPEG output when the request names none.
pub const DEFAULT_JPEG_QUALITY: u8 = 85;

/// Quality used for WebP output when the request names none.
pub const DEFAULT_WEBP_QUALITY: u8 = 80;

/// Largest accepted quality, for JPEG and WebP alike.
pub const MAX_QUALITY: u8 = 100;

/// A validated output format. A quality held here never exceeds `MAX_QUALITY`.
///
/// The WebP quality is kept in whole percent. It is accepted for symmetry with
/// JPEG, but the encoder does not act on it.
#[derive(Debug, Clone, Copy, PartialEq, Eq, Structural)]
pub enum OutputFormat {
    Png,
    Jpeg(u8),
    Webp(u8),
}

/// The quality bound that every constructed format meets.
pub open spec fn format_wf(f: OutputFormat) -> bool {
    match f {
        OutputFormat::Png => true,
        OutputFormat::Jpeg(q) => q <= MAX_QUALITY,
        OutputFormat::Webp(q) => q <= MAX_QUALITY,
    }
}

pub open spec fn names_png(folded: Seq<char>) -> bool {
    folded == "png"@
}

pub open spec fn names_jpeg(folded: Seq<char>) -> bool {
    folded == "jpeg"@ || folded == "jpg"@
}

pub open spec fn names_webp(folded: Seq<char>) -> bool {
    folded == "webp"@
}

pub open spec fn quality_or(quality: Option<u8>, default: u8) -> u8 {
    match quality {
        Some(q) => q,
        None => default,
    }
}

/// The format that a lower-cased format name and an optional quality select,
/// or `None` where the name is unknown or the quality is out of range.
pub open spec fn resolved(folded: Seq<char>, quality: Option<u8>) -> Option<OutputFormat> {
    if names_png(folded) {
        Some(OutputFormat::Png)
    } else if names_jpeg(folded) {
        let q = quality_or(quality, DEFAULT_JPEG_QUALITY);
        if q <= MAX_QUALITY {
            Some(OutputFormat::Jpeg(q))
        } else {
            None
        }
    } else if names_webp(folded) {
        let q = quality_or(quality, DEFAULT_WEBP_QUALITY);
        if q <= MAX_QUALITY {
            Some(OutputFormat::Webp(q))
        } else {
            None
        }
    } else {
        None
    }
}

/// The message given when `resolved` yields no format; `name` is the name as
/// the caller wrote it.
pub open spec fn resolve_error(folded: Seq<char>, name: Seq<char>) -> Seq<char> {
    if names_png(folded) {
        Seq::empty()
    } else if names_jpeg(folded) {
        "JPEG quality must be between 0 and 100"@
    } else if names_webp(folded) {
        "WebP quality must be between 0 and 100"@
    } else {
        "Unsupported format: "@ + name
    }
}

/// The outcome of resolving `name`, lower-cased to `folded`, with `quality`.
pub open spec fn resolves_to(
    folded: Seq<char>,
    name: Seq<char>,
    quality: Option<u8>,
    r: Result<OutputFormat, String>,
) -> bool {
    match r {
        Ok(f) => resolved(folded, quality) == Some(f),
        Err(e) => resolved(folded, quality) is None && e@ == resolve_error(folded, name),
    }
}

pub open spec fn content_type_of(f: OutputFormat) -> Seq<char> {
    match f {
        OutputFormat::Png => "image/png"@,
        OutputFormat::Jpeg(_) => "image/jpeg"@,
        OutputFormat::Webp(_) => "image/webp"@,
    }
}

pub open spec fn file_extension_of(f: OutputFormat) -> Seq<char> {
    match f {
        OutputFormat::Png => "png"@,
        OutputFormat::Jpeg(_) => "jpg"@,
        OutputFormat::Webp(_) => "webp"@,
    }
}

proof fn names_are_distinct()
    ensures
        "png"@ != "jpeg"@,
        "png"@ != "jpg"@,
        "png"@ != "webp"@,
        "jpeg"@ != "webp"@,
        "jpg"@ != "webp"@,
{
    reveal_strlit("png");
    reveal_strlit("jpeg");
    reveal_strlit("jpg");
    reveal_strlit("webp");
    assert("png"@.len() != "jpeg"@.len());
    assert("png"@[0] != "jpg"@[0]);
    assert("png"@.len() != "webp"@.len());
    assert("jpeg"@[0] != "webp"@[0]);
    assert("jpg"@.len() != "webp"@.len());
}

/// Each supported name, given no quality, selects its own variant with that
/// variant's default quality.
pub proof fn supported_names_take_default_quality(folded: Seq<char>)
    ensures
        folded == "png"@ ==> resolved(folded, None) == Some(OutputFormat::Png),
        folded == "jpeg"@ ==> resolved(folded, None) == Some(OutputFormat::Jpeg(DEFAULT_JPEG_QUALITY)),
        folded == "jpg"@ ==> resolved(folded, None) == Some(OutputFormat::Jpeg(DEFAULT_JPEG_QUALITY)),
        folded == "webp"@ ==> resolved(folded, None) == Some(OutputFormat::Webp(DEFAULT_WEBP_QUALITY)),
{
    names_are_distinct();
}

/// For JPEG and WebP a given quality is accepted exactly when it is at most
/// `MAX_QUALITY`, and then kept as given.
pub proof fn quality_accepted_up_to_max(folded: Seq<char>, q: u8)
    requires
        names_jpeg(folded) || names_webp(folded),
    ensures
        resolved(folded, Some(q)) is Some <==> q <= MAX_QUALITY,
        names_jpeg(folded) && q <= MAX_QUALITY ==> resolved(folded, Some(q)) == Some(OutputFormat::Jpeg(q)),
        names_webp(folded) && q <= MAX_QUALITY ==> resolved(folded, Some(q)) == Some(OutputFormat::Webp(q)),
{
    names_are_distinct();
}

/// Whatever the name and quality, a resolved format meets the quality bound.
pub proof fn resolved_formats_are_bounded(folded: Seq<char>, quality: Option<u8>)
    ensures
        resolved(folded, quality) matches Some(f) ==> format_wf(f),
{
}

/// What `str::to_lowercase` makes of a string.
pub uninterp spec fn lower_of(s: Seq<char>) -> Seq<char>;

/// Relies on `str::to_lowercase`: the lower-case mapping of each character,
/// which depends on the characters alone.
#[verifier::external_body]
fn lowercase(s: &str) -> (r: String)
    ensures
        r@ == lower_of(s@),
{
    s.to_lowercase()
}

fn text_is(s: &String, lit: &str) -> (r: bool)
    ensures
        r == (s@ == lit@),
{
    let other = String::from_str(lit);
    *s == other
}

impl OutputFormat {
    /// Resolves a format name, matched case-insensitively, and an optional
    /// quality into a validated format.
    pub fn from_string(format_str: &str, quality: Option<u8>) -> (r: Result<Self, String>)
        ensures
            resolves_to(lower_of(format_str@), format_str@, quality, r),
    {
        let folded = lowercase(format_str);
        Self::from_folded(folded.as_str(), format_str, quality)
    }

    /// Resolves a format name already lower-cased to `folded`; `name` is the
    /// name as written, used in the error message.
    pub fn from_folded(folded: &str, name: &str, quality: Option<u8>) -> (r: Result<Self, String>)
        ensures
            resolves_to(folded@, name@, quality, r),
    {
        let folded = String::from_str(folded);
        if text_is(&folded, "png") {
            Ok(OutputFormat::Png)
        } else if text_is(&folded, "jpeg") || text_is(&folded, "jpg") {
            let q = match quality {
                Some(q) => q,
                None => DEFAULT_JPEG_QUALITY,
            };
            if q > MAX_QUALITY {
                return Err(String::from_str("JPEG quality must be between 0 and 100"));
            }
            Ok(OutputFormat::Jpeg(q))
        } else if text_is(&folded, "webp") {
            let q = match quality {
                Some(q) => q,
                None => DEFAULT_WEBP_QUALITY,
            };
            if q > MAX_QUALITY {
                return Err(String::from_str("WebP quality must be between 0 and 100"));
            }
            Ok(OutputFormat::Webp(q))
        } else {
            Err(String::from_str("Unsupported format: ").concat(name))
        }
    }

    /// The MIME type of the encoded output.
    pub fn content_type(&self) -> (r: &'static str)
        ensures
            r@ == content_type_of(*self),
    {
        match self {
            OutputFormat::Png => "image/png",
            OutputFormat::Jpeg(_) => "image/jpeg",
            OutputFormat::Webp(_) => "image/webp",
        }
    }

    /// The canonical file extension of the encoded output.
    pub fn file_extension(&self) -> (r: &'static str)
        ensures
            r@ == file_extension_of(*self),
    {
        match self {
            OutputFormat::Png => "png",
            OutputFormat::Jpeg(_) => "jpg",
            OutputFormat::Webp(_) => "webp",
        }
    }
}

} // verus!
