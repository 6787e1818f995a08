//! What one who has a share link sees.

use fvoci_http::digest::sha256_hex;
use fvoci_http::header::{if_none_matches, tags_match};
use fvoci_http::routes::share::{share_etag, share_page_url, wrap_share_html, BodyFormat};

#[test]
fn etag_matches_source_formula_and_weak_compare() {
    let tag = share_etag("2026-09-26T00:00:00.000Z", BodyFormat::Fragment);
    let digest = sha256_hex(b"2026-09-26T00:00:00.000Z|fragment");
    assert_eq!(tag, format!("\"{}\"", &digest[..16]));
    assert!(tags_match(&format!("W/{tag}"), &tag));
    assert!(tags_match(&format!("\"x\", {tag}"), &tag));
    assert!(tags_match("*", &tag));
    assert!(!tags_match("\"other\"", &tag));
}

#[test]
fn wrapper_escapes_title() {
    let html = wrap_share_html("<a>&\"", "<p>x</p>", "n1");
    assert!(html.contains("<title>&lt;a&gt;&amp;&quot;</title>"));
    assert!(html.contains("<style nonce=\"n1\">"));
    assert!(html.contains("<body>\n<p>x</p>\n</body>"));
}

#[test]
fn share_url_uses_human_path() {
    assert_eq!(
        share_page_url("https://x.example/", "tok"),
        "https://x.example/s/tok"
    );
}

#[test]
fn etag_weak_comparison() {
    let tag = fvoci_http::digest::strong_etag(b"x");
    let weak = format!("W/{tag}");
    assert!(if_none_matches(Some(weak.as_bytes()), &tag));
    assert!(!if_none_matches(Some(b"\"other\""), &tag));
}
