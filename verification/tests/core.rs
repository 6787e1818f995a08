//! Text, numbers, ids, digests, headers and time.

use fvoci_http::cookie::{clear_session_cookie, set_session_cookie, write_cookie, SessionCookie};
use fvoci_http::digest::{quoted_tag, sha256_hex, strong_etag};
use fvoci_http::encoding::random_token;
use fvoci_http::error::{ApiError, AppError, Params, ProblemCode};
use fvoci_http::header::{
    can_send, if_none_matches, no_headers, not_modified, put, put_sendable, read_header,
    read_media_type, tags_match, to_ascii_lower, Header,
};
use fvoci_http::ids::{text_of, texts_of, Uuid};
use fvoci_http::json::{copy_json, member, parse_json, put_member, read_integer, Json};
use fvoci_http::number::coerce;
use fvoci_http::query::{check_pairs, lookup, strict_query};
use fvoci_http::text::{
    before_char, chars_of, contains, decimal_string, digit, ends_with, escape_html, join2, join3,
    join4, join_all, lines, same, signed_decimal_string, slice, split_on, starts_with, string_of,
    strip_prefix, trim, trim_end_char, utf16_prefix, utf16_within, white,
};
use fvoci_http::time::{date_of, Date, Timestamp};

fn pairs(headers: &[Header]) -> Vec<(&str, &str)> {
    headers
        .iter()
        .map(|h| (h.name.as_str(), h.value.as_str()))
        .collect()
}

#[test]
fn text_is_trimmed_as_unicode_has_it() {
    assert_eq!(trim("\u{3000} a b\t\n"), "a b");
    assert_eq!(trim(" \u{a0}"), "");
    assert_eq!(trim_end_char("https://x///", '/'), "https://x");
    assert!(white('\u{2028}') && !white('\u{200b}'));
}

#[test]
fn text_is_taken_apart() {
    assert!(starts_with("Bearer x", "Bearer "));
    assert!(!starts_with("Bear", "Bearer"));
    assert!(ends_with("a.docx", ".docx"));
    assert!(contains("a wordprocessing b", "wordprocessing"));
    assert!(!contains("a", "ab"));
    assert_eq!(strip_prefix("W/\"x\"", "W/"), Some("\"x\""));
    assert_eq!(strip_prefix("x", "W/"), None);
    assert_eq!(before_char("a?b?c", '?'), "a");
    assert_eq!(split_on("a,,b", ','), vec!["a", "", "b"]);
    assert_eq!(lines("a\r\nb\n\nc\n"), vec!["a", "b", "", "c"]);
    assert_eq!(string_of(&chars_of("né")), "né");
    assert_eq!(slice(&chars_of("abcd"), 1, 3), "bc");
    assert!(same("é", "é") && !same("e", "é"));
}

#[test]
fn text_is_put_together() {
    assert_eq!(join2("a", "b"), "ab");
    assert_eq!(join3("a", "b", "c"), "abc");
    assert_eq!(join4("a", "b", "c", "d"), "abcd");
    assert_eq!(join_all(&["a".to_string(), "b".to_string()], ", "), "a, b");
    assert_eq!(join_all(&[], ", "), "");
}

#[test]
fn text_is_counted_in_code_units() {
    assert!(utf16_within("a\u{1f600}", 3));
    assert!(!utf16_within("a\u{1f600}", 2));
    assert_eq!(utf16_prefix("a\u{1f600}b", 2), "a");
    assert_eq!(utf16_prefix("a\u{1f600}b", 3), "a\u{1f600}");
    assert_eq!(utf16_prefix("ab", 5), "ab");
}

#[test]
fn numbers_are_written_in_decimal() {
    assert_eq!(decimal_string(0), "0");
    assert_eq!(decimal_string(u64::MAX), "18446744073709551615");
    assert_eq!(signed_decimal_string(-120), "-120");
    assert_eq!(signed_decimal_string(i64::MIN), "-9223372036854775808");
    assert_eq!(digit(7), '7');
}

#[test]
fn html_shows_text_as_it_is() {
    assert_eq!(escape_html("<a href='x'>&\"</a>"), "&lt;a href=&#x27;x&#x27;&gt;&amp;&quot;&lt;/a&gt;");
    assert_eq!(escape_html("&lt;"), "&amp;lt;");
    assert_ne!(escape_html("&lt;"), escape_html("<"));
    let shown = escape_html("<script>&'\"");
    assert!(!shown.contains('<') && !shown.contains('>') && !shown.contains('"'));
}

#[test]
fn numbers_are_coerced_as_floating_point_has_them() {
    assert_eq!(coerce("50", 100), Some(50));
    assert_eq!(coerce("5e1", 100), Some(50));
    assert_eq!(coerce("+7.000", 100), Some(7));
    assert_eq!(coerce("0.7e1", 100), Some(7));
    assert_eq!(coerce("100.00000000000000000001", 100), Some(100));
    assert_eq!(coerce("-1", 100), None);
    assert_eq!(coerce("0x10", 100), None);
    assert_eq!(coerce("NaN", 100), None);
    assert_eq!(coerce("inf", 100), None);
    assert_eq!(coerce("", 100), None);
    assert_eq!(coerce("1e", 100), None);
    assert_eq!(coerce("7.5", 100), None);
    for text in ["1", "99", "12.0", "1.2e1", "120e-1", "3.0000000000000001"] {
        let value: f64 = text.parse().unwrap();
        assert_eq!(coerce(text, 100), Some(value as u64), "{text}");
    }
}

#[test]
fn ids_are_read_in_every_form_and_written_in_one() {
    let id = Uuid(0x0123_4567_89ab_cdef_0123_4567_89ab_cdef);
    let text = "01234567-89ab-cdef-0123-456789abcdef";
    assert_eq!(id.text(), text);
    assert_eq!(Uuid::parse_str(text), Some(id));
    assert_eq!(Uuid::parse_str("0123456789ABCDEF0123456789abcdef"), Some(id));
    assert_eq!(Uuid::parse_str("{01234567-89ab-cdef-0123-456789abcdef}"), Some(id));
    assert_eq!(Uuid::parse_str("urn:uuid:01234567-89ab-cdef-0123-456789abcdef"), Some(id));
    assert_eq!(Uuid::parse_str("01234567-89ab-cdef-0123-456789abcde"), None);
    assert_eq!(Uuid::parse_str("not an id"), None);
    assert_eq!(text_of(None), None);
    assert_eq!(text_of(Some(id)).as_deref(), Some(text));
    assert_eq!(texts_of(&[id]), vec![text]);
    for v in [0u128, 1, u128::MAX, 0xf0f0] {
        assert_eq!(Uuid::parse_str(&Uuid(v).text()), Some(Uuid(v)));
    }
}

#[test]
fn digests_are_written_in_hexadecimal() {
    assert_eq!(
        sha256_hex(b"abc"),
        "ba7816bf8f01cfea414140de5dae2223b00361a396177a9cb410ff61f20015ad"
    );
    assert_eq!(strong_etag(b"abc"), "\"ba7816bf8f01cfea\"");
    assert_eq!(quoted_tag("0123456789abcdefXX"), "\"0123456789abcdef\"");
}

#[test]
fn tokens_are_random_text_for_urls() {
    let token = random_token(32);
    assert_eq!(token.len(), 43);
    assert!(token.chars().all(|c| c.is_ascii_alphanumeric() || c == '-' || c == '_'));
    assert_ne!(token, random_token(32));
    assert_eq!(random_token(16).len(), 22);
}

#[test]
fn headers_are_read_where_they_can_be() {
    assert_eq!(read_header(Some(b"text/html")).as_deref(), Some("text/html"));
    assert_eq!(read_header(Some(b"\xff")), None);
    assert_eq!(read_header(Some(b"a\x01")), None);
    assert_eq!(read_header(None), None);
    assert_eq!(
        read_media_type(Some(b"Application/JSON; charset=utf-8")).as_deref(),
        Some("application/json")
    );
    assert_eq!(to_ascii_lower("ABCÉ"), "abcÉ");
}

#[test]
fn headers_are_sent_where_they_can_be() {
    assert!(can_send("a\tb é"));
    assert!(!can_send("a\nb") && !can_send("\u{7f}"));
    let mut headers = no_headers();
    put(&mut headers, "a", "1");
    put_sendable(&mut headers, "b", "x\r\ny");
    put_sendable(&mut headers, "c", "3");
    assert_eq!(pairs(&headers), vec![("a", "1"), ("c", "3")]);
}

#[test]
fn a_tag_names_itself() {
    let tag = strong_etag(b"contents");
    assert!(tags_match(&tag, &tag));
    assert!(tags_match(&format!("W/{tag}"), &tag));
    assert!(tags_match(" * ", &tag));
    assert!(tags_match(&format!("\"a\" , {tag}"), &tag));
    assert!(!tags_match("\"a\"", &tag));
    assert!(!if_none_matches(None, &tag));
    assert_eq!(
        pairs(&not_modified(&tag, "private, no-cache")),
        vec![("etag", tag.as_str()), ("cache-control", "private, no-cache")]
    );
}

#[test]
fn a_session_is_kept_in_a_cookie() {
    let settings = SessionCookie {
        name: "sid".to_string(),
        ttl_secs: 3600,
    };
    let kept = "sid=tok; HttpOnly; Path=/; SameSite=Lax; Max-Age=3600";
    assert_eq!(set_session_cookie(&settings, false, "tok"), kept);
    assert_eq!(set_session_cookie(&settings, true, "tok"), format!("{kept}; Secure"));
    assert_eq!(
        clear_session_cookie(&settings, true),
        "sid=; HttpOnly; Path=/; SameSite=Lax; Max-Age=0; Secure"
    );
    assert!(can_send(&write_cookie("a", "b", -5, true)));
}

#[test]
fn queries_are_strict() {
    let pairs = strict_query(Some("a=1&b=x%20y%2Bz+w"), &["a", "b"]).unwrap();
    assert_eq!(lookup(&pairs, "a"), Some("1"));
    assert_eq!(lookup(&pairs, "b"), Some("x y+z w"));
    assert_eq!(lookup(&pairs, "c"), None);
    assert!(strict_query(None, &[]).unwrap().is_empty());
    assert_eq!(
        strict_query(Some("c=1"), &["a"]).unwrap_err().code,
        ProblemCode::InvalidInput
    );
    assert!(strict_query(Some("a=1&a=2"), &["a"]).is_err());
    let twice = vec![("a".to_string(), String::new()), ("a".to_string(), String::new())];
    assert!(check_pairs(&twice, &["a"]).is_err());
}

#[test]
fn json_is_read_with_its_numbers_as_text() {
    let Some(Json::Object(mut members)) = parse_json(br#"{"a":1.50,"b":[null,true,"x"]}"#) else {
        panic!("an object");
    };
    assert!(matches!(member(&members, "a"), Some(Json::Number(n)) if n == "1.5"));
    assert!(matches!(member(&members, "b"), Some(Json::Array(v)) if v.len() == 3));
    assert!(member(&members, "c").is_none());
    put_member(&mut members, "a".to_string(), Json::Null);
    put_member(&mut members, "c".to_string(), Json::Bool(true));
    assert!(matches!(member(&members, "a"), Some(Json::Null)));
    assert!(matches!(member(&members, "c"), Some(Json::Bool(true))));
    assert_eq!(members.len(), 3);
    assert!(matches!(copy_json(&Json::Object(members)), Json::Object(m) if m.len() == 3));
    assert!(parse_json(b"{").is_none());
}

#[test]
fn integers_are_read_within_bounds() {
    assert_eq!(read_integer("7", 0, 10), Some(7));
    assert_eq!(read_integer("-3", -5, 10), Some(-3));
    assert_eq!(read_integer("11", 0, 10), None);
    assert_eq!(read_integer("7.0", 0, 10), None);
    assert_eq!(read_integer("1e1", 0, 10), None);
}

#[test]
fn instants_are_written_in_utc() {
    let at = Timestamp::from_micros(1_790_380_800_123_456).unwrap();
    assert_eq!(at.micros(), 1_790_380_800_123_456);
    assert_eq!(at.js_iso(), "2026-09-26T00:00:00.123Z");
    assert_eq!(at.iso(), "2026-09-26T00:00:00.123Z");
    assert_eq!(at.rfc3339(), "2026-09-26T00:00:00.123456+00:00");
    assert!(Timestamp::from_micros(i64::MAX).is_none());
    let first = Timestamp::from_micros(-8_334_601_228_800_000_000).unwrap();
    let last = Timestamp::from_micros(8_210_266_876_799_999_999).unwrap();
    assert!(first.iso().starts_with('-'));
    assert!(last.iso().starts_with('+'));
}

#[test]
fn days_are_written_as_dates() {
    let day = Date::from_days(20_722).unwrap();
    assert_eq!(day.days(), 20_722);
    assert_eq!(day.text(), "2026-09-26");
    assert_eq!(day.by_pattern(), "2026-09-26");
    assert_eq!(date_of(Some(day)).as_deref(), Some("2026-09-26"));
    assert_eq!(date_of(None), None);
    assert_eq!(Date::from_days(0).unwrap().text(), "1970-01-01");
    assert!(Date::from_days(i32::MAX).is_none());
    assert!(!Date::from_days(-96_465_292).unwrap().text().is_empty());
    assert!(!Date::from_days(95_026_236).unwrap().text().is_empty());
}

#[test]
fn problems_carry_what_they_are_about() {
    let plain = AppError::from_code(ProblemCode::NotFound);
    assert!(plain.status.is_none() && plain.source.is_none() && plain.params.is_none());
    let at = AppError::with_source(ProblemCode::InvalidInput, "/kind");
    assert_eq!(at.source.as_deref(), Some("/kind"));
    let with = AppError::problem(413, ProblemCode::InvalidInput);
    assert_eq!(with.status, Some(413));
    let detail = AppError::detail(400, ProblemCode::InvalidInput, "invalid_cursor");
    assert!(matches!(detail.params, Some(Params::Code(ref c)) if c == "invalid_cursor"));
    assert_eq!(AppError::rate_limited(9).retry_after, Some(9));
    assert_eq!(AppError::internal().code, ProblemCode::Internal);
    assert_eq!(
        AppError::upload_capacity_exceeded(3).code,
        ProblemCode::UploadCapacityExceeded
    );
    assert!(matches!(
        ApiError::coded(409, "task_archived", "task archived"),
        ApiError::Coded { status: 409, .. }
    ));
    assert!(matches!(ApiError::app(ProblemCode::NotFound), ApiError::App(_)));
}

#[test]
fn a_problem_with_a_code_of_its_own_is_answered() {
    let problem = ApiError::Coded {
        status: 400,
        code: "tree_depth_limit".to_string(),
        title: "too deep".to_string(),
        params: Some(Params::Limit(12)),
    };
    let reply = problem.reply().unwrap();
    assert_eq!(reply.status, 400);
    assert_eq!(pairs(&reply.headers), vec![("content-type", "application/problem+json")]);
    let members = match reply.body {
        Json::Object(members) => members,
        other => panic!("{other:?}"),
    };
    assert!(matches!(member(&members, "type"), Some(Json::Text(t)) if t == "about:blank"));
    assert!(matches!(member(&members, "title"), Some(Json::Text(t)) if t == "too deep"));
    assert!(matches!(member(&members, "status"), Some(Json::Number(n)) if n == "400"));
    assert!(matches!(member(&members, "code"), Some(Json::Text(c)) if c == "tree_depth_limit"));
    match member(&members, "params") {
        Some(Json::Object(params)) => {
            assert!(matches!(member(params, "limit"), Some(Json::Number(n)) if n == "12"));
        }
        other => panic!("{other:?}"),
    }
    let plain = ApiError::coded(409, "conflict", "conflict").reply().unwrap();
    assert!(matches!(plain.body, Json::Object(m) if m.len() == 4));
    assert!(ApiError::app(ProblemCode::NotFound).reply().is_none());
}
