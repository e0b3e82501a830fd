use base64::Engine as _;
use media_convert::embed::{build_svg_document, embed_document, embedded_payload_round_trip};
use media_convert::error::ErrorKind;

/// Encodes a blank raster image of the given size as PNG bytes.
fn png_bytes(width: u32, height: u32) -> Vec<u8> {
    let img = image::RgbaImage::new(width, height);
    let mut buf: Vec<u8> = Vec::new();
    img.write_to(&mut std::io::Cursor::new(&mut buf), image::ImageFormat::Png)
        .unwrap();
    buf
}

#[test]
fn embedded_document_is_exact() {
    let bytes = png_bytes(400, 300);
    let doc = embed_document(&bytes, "/tmp/photo.png").unwrap();
    let payload = base64::engine::general_purpose::STANDARD.encode(&bytes);
    let expected = format!(
        "<svg xmlns=\"http://www.w3.org/2000/svg\" width=\"400\" height=\"300\" viewBox=\"0 0 400 300\">\n    <image href=\"data:image/png;base64,{}\" width=\"400\" height=\"300\" />\n</svg>",
        payload
    );
    assert_eq!(doc, expected);
}

#[test]
fn embedded_payload_decodes_to_original_bytes() {
    let bytes = png_bytes(16, 9);
    let doc = embed_document(&bytes, "/tmp/photo.png").unwrap();
    let start = doc.find("base64,").unwrap() + "base64,".len();
    let end = doc[start..].find('"').unwrap() + start;
    let decoded = base64::engine::general_purpose::STANDARD
        .decode(&doc[start..end])
        .unwrap();
    assert_eq!(decoded, bytes);
}

#[test]
fn embedded_dimensions_match_source_exactly() {
    let bytes = png_bytes(7, 5);
    let doc = embed_document(&bytes, "/tmp/tiny.png").unwrap();
    assert!(doc.contains("width=\"7\" height=\"5\""));
    assert!(doc.contains("viewBox=\"0 0 7 5\""));
}

#[test]
fn extension_case_insensitive_mime() {
    let bytes = png_bytes(3, 3);
    let doc = embed_document(&bytes, "/tmp/photo.JPG").unwrap();
    assert!(doc.contains("data:image/jpeg;base64,"));
}

#[test]
fn missing_extension_defaults_to_png_mime() {
    let bytes = png_bytes(3, 3);
    let doc = embed_document(&bytes, "/tmp/photo").unwrap();
    assert!(doc.contains("data:image/png;base64,"));
}

#[test]
fn undecodable_bytes_fail_with_decode_error() {
    let bytes = vec![1u8, 2, 3, 4];
    let e = embed_document(&bytes, "/tmp/broken.png").unwrap_err();
    assert_eq!(e.kind, ErrorKind::DecodeError);
    assert!(e.message.starts_with("decode failed: "));
}

#[test]
fn payload_round_trip_recovers_bytes() {
    let bytes = vec![0u8, 255, 7, 42, 13, 128];
    assert_eq!(embedded_payload_round_trip(&bytes), bytes);
    let empty: Vec<u8> = Vec::new();
    assert_eq!(embedded_payload_round_trip(&empty), empty);
    let png = png_bytes(2, 2);
    assert_eq!(embedded_payload_round_trip(&png), png);
}

#[test]
fn document_builder_renders_given_parts() {
    let doc = build_svg_document(1024, 512, "image/webp", "QUJD");
    let expected = "<svg xmlns=\"http://www.w3.org/2000/svg\" width=\"1024\" height=\"512\" viewBox=\"0 0 1024 512\">\n    <image href=\"data:image/webp;base64,QUJD\" width=\"1024\" height=\"512\" />\n</svg>";
    assert_eq!(doc, expected);
}
