//! What stands before the routes.

use fvoci_http::authz::canonicalize_api_token_path;
use fvoci_http::consent::consent_exempt;
use fvoci_http::json::{parse_json, Json};
use fvoci_http::json_input::{parse_patch_me, FamilyNamePatch};

#[test]
fn canonicalize_rejects_dot_segments() {
    assert!(canonicalize_api_token_path("/api/v1/workspaces/x/documents").is_ok());
    assert!(canonicalize_api_token_path("/api/v1/../secret").is_err());
    assert!(canonicalize_api_token_path("/api/v1/%2e%2e/secret").is_err());
}

#[test]
fn allowlist_matches_whole_segments_only() {
    assert!(consent_exempt("/api/v1/auth/consents"));
    assert!(consent_exempt("/api/v1/auth/consents/pending"));
    assert!(consent_exempt("/api/v1/legal/terms/versions"));
    assert!(!consent_exempt("/api/v1/legalese"));
    assert!(!consent_exempt("/api/v1/auth/me"));
    assert!(!consent_exempt("/api/v1/instance"));
    assert!(!consent_exempt("/collab"));
}

fn value(text: &str) -> Json {
    parse_json(text.as_bytes()).expect("a JSON value")
}

#[test]
fn patch_me_family_name_omitted_preserves() {
    let patch = parse_patch_me(value(r#"{"givenName": "Renamed"}"#)).expect("parse patch");
    assert_eq!(patch.given_name, "Renamed");
    assert!(matches!(patch.family_name, FamilyNamePatch::Preserve));
}

#[test]
fn patch_me_family_name_null_clears() {
    let patch = parse_patch_me(value(r#"{"givenName": "Renamed", "familyName": null}"#))
        .expect("parse patch");
    assert_eq!(patch.given_name, "Renamed");
    assert!(matches!(patch.family_name, FamilyNamePatch::Clear));
}

#[test]
fn patch_me_family_name_string_sets_value() {
    let patch = parse_patch_me(value(r#"{"givenName": "Renamed", "familyName": "Kim"}"#))
        .expect("parse patch");
    assert_eq!(patch.given_name, "Renamed");
    assert!(matches!(patch.family_name, FamilyNamePatch::Replace(ref name) if name == "Kim"));
}
