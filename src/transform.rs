//! Decoding, resizing and re-encoding an image, on top of the `image` crate.
use vstd::prelude::*;
use vstd::string::*;
use image::{DynamicImage, ImageError};
use std::io::Cursor;
use crate::format::OutputFormat;

verus! {

#[verifier::external_type_specification]
#[verifier::external_body]
pub struct ExDynamicImage(image::DynamicImage);

#[verifier::external_type_specification]
#[verifier::external_body]
pub struct ExImageError(image::ImageError);

/// What a decoded image is: its size, its pixel layout (which of the
/// codec's colour types it has) and its samples, row by row, each sample's
/// bytes in little-endian order.
pub struct ImageModel {
    pub width: u32,
    pub height: u32,
    pub layout: u8,
    pub samples: Seq<u8>,
}

/// The encoder variants of the codec.
#[derive(Debug, Clone, Copy, PartialEq, Eq, Structural)]
pub enum Codec {
    Png,
    Jpeg(u8),
    WebP,
}

/// The encoder variant used for an output format; the WebP quality has no
/// counterpart in the codec.
pub open spec fn codec_of(format: OutputFormat) -> Codec {
    match format {
        OutputFormat::Png => Codec::Png,
        OutputFormat::Jpeg(q) => Codec::Jpeg(q),
        OutputFormat::Webp(_) => Codec::WebP,
    }
}

/// The image that the codec decodes from `bytes`, its container format told
/// from the content; `None` where it cannot.
pub uninterp spec fn decoded_of(bytes: Seq<u8>) -> Option<ImageModel>;

/// The image that nearest-neighbour resampling of `m` to `w` by `h` gives.
pub uninterp spec fn resized_of(m: ImageModel, w: u32, h: u32) -> ImageModel;

/// The bytes that the codec's encoder variant `c` makes of `m`; `None`
/// where it refuses.
pub uninterp spec fn encoded_of(m: ImageModel, c: Codec) -> Option<Seq<u8>>;

/// A decoded image, held for the codec, with its model.
pub struct Image {
    inner: DynamicImage,
    model: Ghost<ImageModel>,
}

impl View for Image {
    type V = ImageModel;

    closed spec fn view(&self) -> ImageModel {
        self.model@
    }
}

/// Relies on `image::io::Reader` with `with_guessed_format` and `decode`: the
/// container format is told from the leading bytes. An empty input names no
/// format, and `decode` then fails.
#[verifier::external_body]
fn decode_guessed(bytes: Vec<u8>) -> (r: Result<Image, ImageError>)
    ensures
        r is Ok <==> decoded_of(bytes@) is Some,
        r matches Ok(img) ==> img@ == decoded_of(bytes@)->0,
        bytes@.len() == 0 ==> r is Err,
{
    let model = Ghost(decoded_of(bytes@)->0);
    let reader = image::io::Reader::new(Cursor::new(bytes));
    match reader.with_guessed_format() {
        Ok(reader) => reader.decode().map(|inner| Image { inner, model }),
        Err(e) => Err(ImageError::IoError(e)),
    }
}

/// Relies on `image::DynamicImage::resize_exact` with the nearest-neighbour
/// filter: the result is `nwidth` by `nheight`, whatever the aspect ratio,
/// in the source's pixel layout.
#[verifier::external_body]
fn resize_nearest(img: &Image, nwidth: u32, nheight: u32) -> (r: Image)
    ensures
        r@ == resized_of(img@, nwidth, nheight),
        r@.width == nwidth,
        r@.height == nheight,
        r@.layout == img@.layout,
{
    let model = Ghost(resized_of(img@, nwidth, nheight));
    Image { inner: img.inner.resize_exact(nwidth, nheight, image::imageops::FilterType::Nearest), model }
}

/// Relies on `image::DynamicImage::write_to` into an in-memory buffer, with
/// the output format of the codec variant `codec`.
#[verifier::external_body]
fn encode_as(img: &Image, codec: Codec) -> (r: Result<Vec<u8>, ImageError>)
    ensures
        r is Ok <==> encoded_of(img@, codec) is Some,
        r matches Ok(b) ==> b@ == encoded_of(img@, codec)->0,
{
    let target = match codec {
        Codec::Png => image::ImageOutputFormat::Png,
        Codec::Jpeg(quality) => image::ImageOutputFormat::Jpeg(quality),
        Codec::WebP => image::ImageOutputFormat::WebP,
    };
    let mut cursor = Cursor::new(Vec::new());
    img.inner.write_to(&mut cursor, target)?;
    Ok(cursor.into_inner())
}

/// Relies on `image::DynamicImage::width`: the width in pixels.
#[verifier::external_body]
fn width_of(img: &Image) -> (r: u32)
    ensures
        r == img@.width,
{
    img.inner.width()
}

/// Relies on `image::DynamicImage::height`: the height in pixels.
#[verifier::external_body]
fn height_of(img: &Image) -> (r: u32)
    ensures
        r == img@.height,
{
    img.inner.height()
}

impl Image {
    /// The width in pixels.
    pub fn width(&self) -> (r: u32)
        ensures
            r == self@.width,
    {
        width_of(self)
    }

    /// The height in pixels.
    pub fn height(&self) -> (r: u32)
        ensures
            r == self@.height,
    {
        height_of(self)
    }
}

/// The encoder variant for an output format.
pub fn codec_for(format: OutputFormat) -> (r: Codec)
    ensures
        r == codec_of(format),
{
    match format {
        OutputFormat::Png => Codec::Png,
        OutputFormat::Jpeg(q) => Codec::Jpeg(q),
        OutputFormat::Webp(_) => Codec::WebP,
    }
}

/// Why the transform of a request failed; each holds a human-readable detail.
#[derive(Debug, Clone, PartialEq, Eq)]
pub enum TransformError {
    Decode(String),
    Encode(String),
}

pub open spec fn transform_message(e: TransformError) -> Seq<char> {
    match e {
        TransformError::Decode(d) => "failed to read image: "@ + d@,
        TransformError::Encode(d) => "failed to write image: "@ + d@,
    }
}

impl TransformError {
    /// The message sent to the client for this failure.
    pub fn message(&self) -> (r: String)
        ensures
            r@ == transform_message(*self),
    {
        match self {
            TransformError::Decode(d) => String::from_str("failed to read image: ").concat(d.as_str()),
            TransformError::Encode(d) => String::from_str("failed to write image: ").concat(d.as_str()),
        }
    }
}

/// `s` begins with `prefix`.
pub open spec fn starts_with(s: Seq<char>, prefix: Seq<char>) -> bool {
    s.len() >= prefix.len() && s.subrange(0, prefix.len() as int) == prefix
}

pub open spec fn decode_prefix() -> Seq<char> {
    "Failed to decode image: "@
}

pub open spec fn encode_prefix() -> Seq<char> {
    "Failed to encode image: "@
}

fn describe(prefix: &str, e: &ImageError) -> (r: String)
    ensures
        starts_with(r@, prefix@),
{
    let detail = e.to_string();
    let r = String::from_str(prefix).concat(detail.as_str());
    assert(r@.subrange(0, prefix@.len() as int) =~= prefix@);
    r
}

/// Decodes an image whose container format is detected from its content.
pub fn read_image(bytes: Vec<u8>) -> (r: Result<Image, String>)
    ensures
        r is Ok <==> decoded_of(bytes@) is Some,
        r matches Ok(img) ==> img@ == decoded_of(bytes@)->0,
        r matches Err(e) ==> starts_with(e@, decode_prefix()),
        bytes@.len() == 0 ==> r is Err,
{
    match decode_guessed(bytes) {
        Ok(img) => Ok(img),
        Err(e) => Err(describe("Failed to decode image: ", &e)),
    }
}

/// Encodes an image in the given output format.
pub fn write_image(image: Image, format: OutputFormat) -> (r: Result<Vec<u8>, String>)
    ensures
        r is Ok <==> encoded_of(image@, codec_of(format)) is Some,
        r matches Ok(b) ==> b@ == encoded_of(image@, codec_of(format))->0,
        r matches Err(e) ==> starts_with(e@, encode_prefix()),
{
    match encode_as(&image, codec_for(format)) {
        Ok(bytes) => Ok(bytes),
        Err(e) => Err(describe("Failed to encode image: ", &e)),
    }
}

/// The image resized to `width`, keeping its own height.
pub open spec fn resized_to_width(m: ImageModel, width: u32) -> ImageModel {
    resized_of(m, width, m.height)
}

/// Resizes to the requested width, keeping the image's own height (the
/// aspect ratio is not preserved), by nearest-neighbour sampling.
pub fn resize_to_width(img: &Image, width: u32) -> (r: Image)
    ensures
        r@ == resized_to_width(img@, width),
        r@.width == width,
        r@.height == img@.height,
        r@.layout == img@.layout,
{
    let height = img.height();
    resize_nearest(img, width, height)
}

/// The outcome of the transform of `bytes` to `width` in `format`: a decode
/// error exactly where decoding fails, an encode error exactly where the
/// resized image cannot be encoded, else the encoder's bytes.
pub open spec fn transformed(
    bytes: Seq<u8>,
    width: u32,
    format: OutputFormat,
    r: Result<Vec<u8>, TransformError>,
) -> bool {
    match decoded_of(bytes) {
        None => r matches Err(TransformError::Decode(d)) && starts_with(d@, decode_prefix()),
        Some(m) => match encoded_of(resized_to_width(m, width), codec_of(format)) {
            None => r matches Err(TransformError::Encode(d)) && starts_with(d@, encode_prefix()),
            Some(out) => r matches Ok(b) && b@ == out,
        },
    }
}

/// Decodes `bytes`, resizes the image to `width` and encodes it as `format`.
pub fn transform(bytes: Vec<u8>, width: u32, format: OutputFormat) -> (r: Result<Vec<u8>, TransformError>)
    ensures
        transformed(bytes@, width, format, r),
        bytes@.len() == 0 ==> r matches Err(TransformError::Decode(_)),
{
    let img = match read_image(bytes) {
        Ok(img) => img,
        Err(detail) => return Err(TransformError::Decode(detail)),
    };
    let resized = resize_to_width(&img, width);
    match write_image(resized, format) {
        Ok(out) => Ok(out),
        Err(detail) => Err(TransformError::Encode(detail)),
    }
}

/// Every WebP quality gives the same encoding of the same image.
pub proof fn webp_quality_has_no_effect(m: ImageModel, q1: u8, q2: u8)
    ensures
        encoded_of(m, codec_of(OutputFormat::Webp(q1))) == encoded_of(m, codec_of(OutputFormat::Webp(q2))),
{
}

} // verus!
