//! The vector-embedding fallback: wrap the source raster bytes,
//! unmodified, inside a minimal vector-container document via a data URI.
//! The raster bytes are decoded only to learn their pixel dimensions; the
//! payload is the raw file content, base64-encoded.

use vstd::prelude::*;
use vstd::string::*;
use base64::Engine;
use crate::error::{ConversionError, ErrorKind, decode_failure};
use crate::mime::{mime_for, lower_opt, mime_label};
use crate::paths::{extension_of, file_name_of, path_extension};
use crate::text::{dec_rep, lower_ascii, u32_to_dec};

verus! {

/// The standard-alphabet, padded base64 encoding of a byte sequence, as
/// the base64 crate's STANDARD engine produces it.
pub uninterp spec fn b64_encoding(bytes: Seq<u8>) -> Seq<char>;

/// The pixel dimensions (width, height) that decoding a byte sequence as
/// a raster image yields, or `None` when the bytes are no supported
/// image.
pub uninterp spec fn decoded_dimensions(bytes: Seq<u8>) -> Option<(u32, u32)>;

/// Relies on `base64::engine::general_purpose::STANDARD`'s `encode`: the
/// result is a function of the input bytes alone, and a padded encoding
/// is four characters for every three input bytes begun. The length
/// bound keeps the encoder's own buffer-size computation from
/// overflowing.
#[verifier::external_body]
fn b64_encode(bytes: &Vec<u8>) -> (r: String)
    requires
        bytes@.len() <= 0x4000_0000,
    ensures
        r@ == b64_encoding(bytes@),
        r@.len() == 4 * ((bytes@.len() + 2) / 3),
{
    base64::engine::general_purpose::STANDARD.encode(bytes)
}

/// Relies on `base64::engine::general_purpose::STANDARD`'s `decode`:
/// decoding with the same engine inverts encoding, so a string that is
/// the encoding of some byte sequence decodes to exactly that sequence.
#[verifier::external_body]
fn b64_decode(s: &str) -> (r: Option<Vec<u8>>)
    ensures
        r matches Some(v) ==> (forall|b: Seq<u8>| s@ == #[trigger] b64_encoding(b) ==> v@ == b),
        r is None ==> (forall|b: Seq<u8>| s@ != #[trigger] b64_encoding(b)),
{
    base64::engine::general_purpose::STANDARD.decode(s).ok()
}

/// Relies on `image::load_from_memory` and the decoded image's `width`
/// and `height`: what a byte sequence decodes to is a function of the
/// bytes alone. The `Err` text is the decoder's own diagnostic.
#[verifier::external_body]
fn decode_dimensions(bytes: &Vec<u8>) -> (r: Result<(u32, u32), String>)
    ensures
        r is Ok <==> decoded_dimensions(bytes@) is Some,
        r matches Ok(d) ==> decoded_dimensions(bytes@) == Some(d),
{
    match image::load_from_memory(bytes) {
        Ok(img) => Ok((img.width(), img.height())),
        Err(e) => Err(e.to_string()),
    }
}

/// The vector-container document: one root element declaring the source
/// image's pixel width, height and view box, holding one embedded-image
/// element whose data URI carries the MIME label and the base64 payload,
/// sized to the same width and height.
pub open spec fn svg_document(width: u32, height: u32, mime: Seq<char>, payload: Seq<char>) -> Seq<
    char,
> {
    "<svg xmlns=\"http://www.w3.org/2000/svg\" width=\""@ + dec_rep(width as int) + "\" height=\""@
        + dec_rep(height as int) + "\" viewBox=\"0 0 "@ + dec_rep(width as int) + " "@ + dec_rep(
        height as int,
    ) + "\">\n    <image href=\"data:"@ + mime + ";base64,"@ + payload + "\" width=\""@ + dec_rep(
        width as int,
    ) + "\" height=\""@ + dec_rep(height as int) + "\" />\n</svg>"@
}

/// Assembles the vector-container document for the given dimensions,
/// content-type label and base64 payload.
pub fn build_svg_document(width: u32, height: u32, mime: &str, payload: &str) -> (r: String)
    ensures
        r@ == svg_document(width, height, mime@, payload@),
{
    let w = u32_to_dec(width);
    let h = u32_to_dec(height);
    let mut doc = String::from_str("<svg xmlns=\"http://www.w3.org/2000/svg\" width=\"");
    doc.append(w.as_str());
    doc.append("\" height=\"");
    doc.append(h.as_str());
    doc.append("\" viewBox=\"0 0 ");
    doc.append(w.as_str());
    doc.append(" ");
    doc.append(h.as_str());
    doc.append("\">\n    <image href=\"data:");
    doc.append(mime);
    doc.append(";base64,");
    doc.append(payload);
    doc.append("\" width=\"");
    doc.append(w.as_str());
    doc.append("\" height=\"");
    doc.append(h.as_str());
    doc.append("\" />\n</svg>");
    proof {
        assert(doc@ =~= svg_document(width, height, mime@, payload@));
    }
    doc
}

/// The lower-cased extension of a path's file name.
pub open spec fn path_ext_lower(p: Seq<char>) -> Option<Seq<char>> {
    lower_opt(extension_of(file_name_of(p)))
}

/// Produces the embedding document for a source raster file: decodes the
/// bytes for their pixel dimensions, base64-encodes the raw bytes
/// unchanged, chooses the MIME label from the input path's extension,
/// and assembles the document. Fails with `DecodeError`, producing
/// nothing, exactly when the bytes decode as no supported image.
pub fn embed_document(file_bytes: &Vec<u8>, input_path: &str) -> (r: Result<
    String,
    ConversionError,
>)
    requires
        file_bytes@.len() <= 0x4000_0000,
    ensures
        r is Ok <==> decoded_dimensions(file_bytes@) is Some,
        r matches Ok(doc) ==> (decoded_dimensions(file_bytes@) matches Some(d) && doc@
            == svg_document(
            d.0,
            d.1,
            mime_for(path_ext_lower(input_path@)),
            b64_encoding(file_bytes@),
        )),
        r matches Err(e) ==> e.kind == ErrorKind::DecodeError,
{
    match decode_dimensions(file_bytes) {
        Err(diag) => Err(decode_failure(diag.as_str())),
        Ok(dims) => {
            let ext = path_extension(input_path);
            let ext_lower = match ext {
                Some(e) => Some(lower_ascii(e.as_str())),
                None => None,
            };
            let mime = mime_label(&ext_lower);
            let payload = b64_encode(file_bytes);
            Ok(build_svg_document(dims.0, dims.1, mime.as_str(), payload.as_str()))
        },
    }
}

/// Law: base64-decoding a payload that the embedder produced yields
/// byte-for-byte the original input bytes. The body encodes with the
/// engine the embedder uses and decodes the result with the same engine.
pub fn embedded_payload_round_trip(bytes: &Vec<u8>) -> (r: Vec<u8>)
    requires
        bytes@.len() <= 0x4000_0000,
    ensures
        r@ == bytes@,
{
    let payload = b64_encode(bytes);
    match b64_decode(payload.as_str()) {
        Some(v) => v,
        None => unreached(),
    }
}

} // verus!
