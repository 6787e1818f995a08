//! Numbers in queries.

use fvoci_http::routes::admin::audit_limit;
use fvoci_http::routes::document_tags::parse_limit;
use fvoci_http::routes::share::parse_expires_days;
use fvoci_http::routes::stars::parse_recent_limit;

#[test]
fn audit_limit_coerces_like_zod() {
    assert_eq!(audit_limit(None).unwrap(), 50);
    assert_eq!(audit_limit(Some(" 7 ")).unwrap(), 7);
    for bad in ["0", "101", "1.5", "x", ""] {
        assert!(audit_limit(Some(bad)).is_err(), "{bad}");
    }
}

#[test]
fn pool_limit_follows_source_coercion() {
    assert_eq!(parse_limit(None).unwrap(), 50);
    assert_eq!(parse_limit(Some("100")).unwrap(), 100);
    assert!(parse_limit(Some("0")).is_err());
    assert!(parse_limit(Some("101")).is_err());
    assert!(parse_limit(Some("1.5")).is_err());
}

#[test]
fn recent_limit_follows_source_coercion() {
    assert_eq!(parse_recent_limit(None).unwrap(), 20);
    assert_eq!(parse_recent_limit(Some("50")).unwrap(), 50);
    assert_eq!(parse_recent_limit(Some("1")).unwrap(), 1);
    assert!(parse_recent_limit(Some("0")).is_err());
    assert!(parse_recent_limit(Some("51")).is_err());
    assert!(parse_recent_limit(Some("2.5")).is_err());
    assert!(parse_recent_limit(Some("abc")).is_err());
}

fn written(value: f64) -> String {
    format!("{value:?}")
}

#[test]
fn expires_days_is_integer_in_range() {
    assert_eq!(parse_expires_days(None).unwrap(), None);
    assert_eq!(parse_expires_days(Some(&written(7.0))).unwrap(), Some(7));
    assert!(parse_expires_days(Some(&written(0.0))).is_err());
    assert!(parse_expires_days(Some(&written(366.0))).is_err());
    assert!(parse_expires_days(Some(&written(1.5))).is_err());
}
