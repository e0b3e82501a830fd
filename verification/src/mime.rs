//! The fixed extension-to-content-type table of the embedding path. The
//! label is chosen from the input file's extension alone; it is not held
//! against the decoded content.

use vstd::prelude::*;
use vstd::string::*;
use crate::text::{lower_seq, str_eq};

verus! {

/// The view of an optional string.
pub open spec fn opt_view(e: Option<String>) -> Option<Seq<char>> {
    match e {
        Some(s) => Some(s@),
        None => None,
    }
}

/// Character-wise lower-casing of an optional character sequence.
pub open spec fn lower_opt(e: Option<Seq<char>>) -> Option<Seq<char>> {
    match e {
        Some(s) => Some(lower_seq(s)),
        None => None,
    }
}

/// The content-type label for a lower-cased file extension: png, jpg,
/// jpeg, webp and gif map to their image types; any other or missing
/// extension falls back to "image/png".
pub open spec fn mime_for(ext_lower: Option<Seq<char>>) -> Seq<char> {
    if ext_lower == Some("png"@) {
        "image/png"@
    } else if ext_lower == Some("jpg"@) || ext_lower == Some("jpeg"@) {
        "image/jpeg"@
    } else if ext_lower == Some("webp"@) {
        "image/webp"@
    } else if ext_lower == Some("gif"@) {
        "image/gif"@
    } else {
        "image/png"@
    }
}

/// Looks the lower-cased extension up in the fixed table.
pub fn mime_label(ext_lower: &Option<String>) -> (r: String)
    ensures
        r@ == mime_for(opt_view(*ext_lower)),
{
    match ext_lower {
        None => String::from_str("image/png"),
        Some(e) => {
            if str_eq(e.as_str(), "png") {
                String::from_str("image/png")
            } else if str_eq(e.as_str(), "jpg") {
                String::from_str("image/jpeg")
            } else if str_eq(e.as_str(), "jpeg") {
                String::from_str("image/jpeg")
            } else if str_eq(e.as_str(), "webp") {
                String::from_str("image/webp")
            } else if str_eq(e.as_str(), "gif") {
                String::from_str("image/gif")
            } else {
                String::from_str("image/png")
            }
        },
    }
}

} // verus!
