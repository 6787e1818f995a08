//! The contents of documents, and pictures.

use fvoci_http::json::{parse_json, Json};
use fvoci_http::routes::admin::sniff_branding_mime;
use fvoci_http::routes::document_body::{
    parse_block_input, parse_body_input, BodyInput, PatchBlockInput,
};

#[test]
fn body_input_requires_exactly_one_field() {
    assert!(matches!(
        parse_body_input(br##"{"contentMd":"# a"}"##),
        Ok(BodyInput::Markdown(_))
    ));
    assert!(matches!(
        parse_body_input(br#"{"contentJson":{"type":"doc","content":[]}}"#),
        Ok(BodyInput::Json(_))
    ));
    for bad in [
        &br#"{}"#[..],
        br#"{"contentMd":"a","contentJson":{}}"#,
        br#"{"contentMd":1}"#,
        br#"{"other":1}"#,
        br#"[]"#,
    ] {
        assert!(parse_body_input(bad).is_err());
    }
}

/// Reads a block with a type and attributes; none where it has another member.
fn read_block(bytes: &[u8]) -> Option<PatchBlockInput> {
    let Some(Json::Object(members)) = parse_json(bytes) else {
        return None;
    };
    let mut block = PatchBlockInput {
        kind: String::new(),
        attrs: None,
        content: None,
        marks: None,
        text: None,
    };
    for (name, value) in members {
        match (name.as_str(), value) {
            ("type", Json::Text(kind)) => block.kind = kind,
            ("attrs", Json::Object(attrs)) => block.attrs = Some(attrs),
            _ => return None,
        }
    }
    Some(block)
}

#[test]
fn block_input_rejects_foreign_attrs_id() {
    let parse = |bytes: &[u8], id| parse_block_input(read_block(bytes), id);
    assert!(parse(br#"{"type":"paragraph","attrs":{"id":"b"}}"#, "b").is_ok());
    assert!(parse(br#"{"type":"paragraph","attrs":{"id":"x"}}"#, "b").is_err());
    assert!(parse(br#"{"type":""}"#, "b").is_err());
    assert!(parse(br#"{"type":"p","extra":1}"#, "b").is_err());
}

const RASTER: [&str; 4] = ["image/png", "image/apng", "image/jpeg", "image/webp"];

#[test]
fn sniff_accepts_raster_only_and_detects_apng() {
    let png = [
        0x89, b'P', b'N', b'G', 0x0d, 0x0a, 0x1a, 0x0a, 0, 0, 0, 13, b'I', b'H', b'D', b'R', 0,
        0, 0, 1, 0, 0, 0, 1, 8, 6, 0, 0, 0, 0, 0, 0, 0,
    ];
    assert_eq!(
        sniff_branding_mime("image/png", &png, &RASTER).as_deref(),
        Some("image/png")
    );
    let mut apng = png[..33].to_vec();
    apng.extend_from_slice(&[
        0, 0, 0, 8, b'a', b'c', b'T', b'L', 0, 0, 0, 1, 0, 0, 0, 0, 0, 0, 0, 0,
    ]);
    assert_eq!(
        sniff_branding_mime("image/png", &apng, &RASTER).as_deref(),
        Some("image/apng")
    );
    assert_eq!(
        sniff_branding_mime(
            "image/svg+xml",
            b"<svg xmlns='http://www.w3.org/2000/svg'/>",
            &RASTER
        ),
        None
    );
    assert_eq!(
        sniff_branding_mime("image/gif", b"GIF89a\x01\x00\x01\x00", &RASTER),
        None
    );
}
