//! The library's trusted boundary: every call into an outside crate goes
//! through one of the items here. Verus believes their contracts; each doc
//! comment names the outside function relied on.

use base64::Engine;
use vstd::prelude::*;

verus! {

/// Relies on uuid::Uuid::new_v4 and its display form: a fresh version-4
/// UUID rendered as the canonical 36-character hyphenated string. The value
/// is random, so nothing is promised beyond its length. The call aborts
/// only if the operating system's randomness source fails, an
/// environmental failure no input avoids.
#[verifier::external_body]
pub(crate) fn fresh_uuid() -> (r: String)
    ensures
        r@.len() == 36,
{
    uuid::Uuid::new_v4().to_string()
}

/// What standard base64 decoding makes of a text: a function of the text
/// alone; None where the text is not valid standard base64.
pub uninterp spec fn base64_decoded(s: Seq<char>) -> Option<Seq<u8>>;

/// Relies on base64::Engine::decode with the STANDARD engine: decodes
/// padded standard-alphabet base64, deterministically in the input.
#[verifier::external_body]
pub(crate) fn base64_decode(s: &str) -> (r: Option<Vec<u8>>)
    ensures
        r is Some <==> base64_decoded(s@) is Some,
        r matches Some(v) ==> base64_decoded(s@) == Some(v@),
{
    base64::engine::general_purpose::STANDARD.decode(s).ok()
}

/// What the image crate reads as the (width, height) of an encoded image:
/// a function of the bytes alone; None where the bytes are not an image
/// that image::load_from_memory can read under the crate's default decode
/// limits.
pub uninterp spec fn image_dims_of(data: Seq<u8>) -> Option<(u32, u32)>;

/// Relies on image::load_from_memory and image::DynamicImage::width and
/// height: the dimensions of the image the bytes encode.
#[verifier::external_body]
pub(crate) fn image_dimensions(data: &Vec<u8>) -> (r: Option<(u32, u32)>)
    ensures
        r == image_dims_of(data@),
{
    match image::load_from_memory(data.as_slice()) {
        Ok(img) => Some((img.width(), img.height())),
        Err(_) => None,
    }
}

/// What decoding a byte buffer, resizing it to exactly (w, h) and
/// re-encoding it as PNG makes of the buffer: a function of the bytes and
/// the target dimensions alone; None where the bytes are not a readable
/// image or the result cannot be encoded.
pub uninterp spec fn resized_png_of(data: Seq<u8>, w: u32, h: u32) -> Option<Seq<u8>>;

/// Relies on image::DynamicImage::resize_exact with the Lanczos3 filter,
/// which scales to exactly the requested dimensions; the surrounding calls
/// only decode the input bytes and re-encode the result as PNG, so the
/// result's dimensions are the requested ones. The targets are capped so
/// the result, an RGBA image of at most 4096 * 4096 * 4 bytes, re-decodes
/// within the image crate's default allocation limit — without the cap
/// the dimensions clause would not hold of the re-decoded result.
#[verifier::external_body]
pub(crate) fn resize_to_png(data: &Vec<u8>, width: u32, height: u32) -> (r: Option<Vec<u8>>)
    requires
        1 <= width <= 4096,
        1 <= height <= 4096,
    ensures
        r is Some <==> resized_png_of(data@, width, height) is Some,
        r matches Some(v) ==> resized_png_of(data@, width, height) == Some(v@) && image_dims_of(v@)
            == Some((width, height)),
        image_dims_of(data@) is None ==> r is None,
{
    let img = match image::load_from_memory(data.as_slice()) {
        Ok(i) => i,
        Err(_) => return None,
    };
    let resized = img.resize_exact(width, height, image::imageops::FilterType::Lanczos3);
    let mut out: Vec<u8> = Vec::new();
    let mut cursor = std::io::Cursor::new(&mut out);
    match resized.to_rgba8().write_to(&mut cursor, image::ImageFormat::Png) {
        Ok(()) => Some(out),
        Err(_) => None,
    }
}

/// What reading the string member under a key out of a JSON document
/// yields: a function of the document text and the key alone; None where
/// the text is not valid JSON, the parsed value is not an object holding
/// the key, or the member is not a string.
pub uninterp spec fn json_str_field(doc: Seq<char>, key: Seq<char>) -> Option<Seq<char>>;

/// Relies on serde_json::from_str::<serde_json::Value>, Value::get and
/// Value::as_str: parses the document and reads the string member under
/// the key. All three are deterministic in their inputs, so the chain's
/// result is a function of the document and the key.
#[verifier::external_body]
pub(crate) fn json_string_field(doc: &str, key: &str) -> (r: Option<String>)
    ensures
        r is Some <==> json_str_field(doc@, key@) is Some,
        r matches Some(v) ==> json_str_field(doc@, key@) == Some(v@),
{
    match serde_json::from_str::<serde_json::Value>(doc) {
        Ok(value) => match value.get(key) {
            Some(member) => match member.as_str() {
                Some(s) => Some(s.to_string()),
                None => None,
            },
            None => None,
        },
        Err(_) => None,
    }
}

} // verus!
