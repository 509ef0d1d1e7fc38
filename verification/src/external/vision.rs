//! Pictures handed to a model.
use vstd::prelude::*;

use crate::codec;
use crate::codec::base64_encode;
use crate::text::case;
use crate::text::case::to_lower;
use crate::text::chars::same_text;
use crate::text::search;
use crate::text::search::{before, ends_with, starts_with};
use crate::text::space;
use crate::text::space::trim;

verus! {

/// The media type that the end of an address tells.
pub open spec fn type_by_name(lower: Seq<char>) -> Option<Seq<char>> {
    if search::has_suffix(lower, ".jpg"@) || search::has_suffix(lower, ".jpeg"@) {
        Some("image/jpeg"@)
    } else if search::has_suffix(lower, ".png"@) {
        Some("image/png"@)
    } else if search::has_suffix(lower, ".gif"@) {
        Some("image/gif"@)
    } else if search::has_suffix(lower, ".webp"@) {
        Some("image/webp"@)
    } else {
        None
    }
}

/// The media type that a header tells; `image/png` where it names none of the
/// known ones.
pub open spec fn type_by_header(header: Seq<char>) -> Seq<char> {
    let ct = space::trimmed(search::before_text(header, ";"@));
    if ct == "image/jpeg"@ || ct == "image/gif"@ || ct == "image/webp"@ {
        ct
    } else {
        "image/png"@
    }
}

/// The media type of a picture: by the path of its address, or else by the header
/// that it came with.
pub open spec fn media_type(url: Seq<char>, header: Seq<char>) -> Seq<char> {
    match type_by_name(case::lowercase_text(search::before_text(url, "?"@))) {
        Some(t) => t,
        None => type_by_header(header),
    }
}

/// The media type that the lower-case path of an address tells.
pub fn media_type_by_name(lower: &str) -> (r: Option<&'static str>)
    ensures
        match r {
            Some(t) => type_by_name(lower@) == Some(t@),
            None => type_by_name(lower@) is None,
        },
{
    if ends_with(lower, ".jpg") || ends_with(lower, ".jpeg") {
        Some("image/jpeg")
    } else if ends_with(lower, ".png") {
        Some("image/png")
    } else if ends_with(lower, ".gif") {
        Some("image/gif")
    } else if ends_with(lower, ".webp") {
        Some("image/webp")
    } else {
        None
    }
}

/// The media type of a picture, by its address or by the header that it came
/// with.
pub fn infer_image_media_type(url: &str, header_content_type: &str) -> (r: &'static str)
    ensures
        r@ == media_type(url@, header_content_type@),
{
    let path = before(url, "?");
    let lower = to_lower(path.as_str());
    if let Some(t) = media_type_by_name(lower.as_str()) {
        return t;
    }
    let head = before(header_content_type, ";");
    let ct = trim(head.as_str());
    if same_text(ct.as_str(), "image/jpeg") {
        "image/jpeg"
    } else if same_text(ct.as_str(), "image/gif") {
        "image/gif"
    } else if same_text(ct.as_str(), "image/webp") {
        "image/webp"
    } else {
        "image/png"
    }
}

/// Whether an address holds the picture itself.
pub fn is_data_uri(image_url: &str) -> (r: bool)
    ensures
        r == search::has_prefix(image_url@, "data:"@),
{
    starts_with(image_url, "data:")
}

/// The picture behind an address as an address that holds it, in base 64. The
/// bytes can be had back from it.
pub fn image_data_uri(image_url: &str, header_content_type: &str, bytes: &[u8]) -> (r: String)
    requires
        codec::fits_base64(bytes@),
    ensures
        r@ == "data:"@ + media_type(image_url@, header_content_type@) + ";base64,"@
            + codec::base64_text(bytes@),
        codec::base64_bytes(codec::base64_text(bytes@)) == Some(bytes@),
{
    let b64 = base64_encode(bytes);
    let mut s = "data:".to_string();
    s.push_str(infer_image_media_type(image_url, header_content_type));
    s.push_str(";base64,");
    s.push_str(b64.as_str());
    s
}

} // verus!
