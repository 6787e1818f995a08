//! The checks that stand before a route.

use vstd::prelude::*;
use crate::error::{AppError, ProblemCode};
use crate::header::read_header;
use crate::text::{same, starts_with, trim};

verus! {

/// The origin that a request names is not another than the public one.
pub open spec fn origin_allowed(origin: Option<&[u8]>, public_origin: Seq<char>) -> bool {
    match crate::header::readable(origin) {
        Some(o) => crate::text::trimmed(o) == public_origin,
        None => true,
    }
}

/// Refuses a request whose `Origin` header names another origin. A header that is absent or
/// cannot be read names none.
pub fn check_origin(origin: Option<&[u8]>, public_origin: &str) -> (r: Result<(), AppError>)
    ensures
        r is Ok <==> origin_allowed(origin, public_origin@),
        r matches Err(e) ==> e@ == crate::error::problem(ProblemCode::OriginMismatch),
{
    match read_header(origin) {
        None => Ok(()),
        Some(o) => if same(trim(o.as_str()), public_origin) {
            Ok(())
        } else {
            Err(AppError::from_code(ProblemCode::OriginMismatch))
        },
    }
}

/// The `Authorization` header carries a bearer token.
pub open spec fn carries_bearer(authorization: Option<&[u8]>) -> bool {
    match crate::header::readable(authorization) {
        Some(a) => crate::text::begins(crate::text::trimmed(a), "Bearer "@),
        None => false,
    }
}

/// Whether the `Authorization` header carries a bearer token.
pub fn has_bearer(authorization: Option<&[u8]>) -> (r: bool)
    ensures
        r == carries_bearer(authorization),
{
    match read_header(authorization) {
        Some(a) => starts_with(trim(a.as_str()), "Bearer "),
        None => false,
    }
}

/// Hides a route that takes sessions only from a request with a bearer token.
pub fn reject_bearer(authorization: Option<&[u8]>) -> (r: Result<(), AppError>)
    ensures
        r is Err <==> carries_bearer(authorization),
        r matches Err(e) ==> e@ == crate::error::problem(ProblemCode::NotFound),
{
    if has_bearer(authorization) {
        Err(AppError::from_code(ProblemCode::NotFound))
    } else {
        Ok(())
    }
}

/// The channel that an activity is recorded under: `api` for a request with a bearer token.
/// The header is read as it stands, without trimming.
pub open spec fn channel_of(authorization: Option<&[u8]>) -> Seq<char> {
    match crate::header::readable(authorization) {
        Some(a) => if crate::text::begins(a, "Bearer "@) {
            "api"@
        } else {
            "web"@
        },
        None => "web"@,
    }
}

/// The channel that an activity is recorded under.
pub fn activity_channel(authorization: Option<&[u8]>) -> (r: &'static str)
    ensures
        r@ == channel_of(authorization),
{
    match read_header(authorization) {
        Some(a) => if starts_with(a.as_str(), "Bearer ") {
            "api"
        } else {
            "web"
        },
        None => "web",
    }
}

/// Another origin than the public one is refused, and the public one allowed, with or without white
/// space around it; so is a request that names none that can be read.
pub proof fn law_one_origin_is_allowed(a: &[u8], b: &[u8], public_origin: Seq<char>)
    requires
        crate::header::header_text(a@) is Some,
        crate::header::header_text(b@) is Some,
        origin_allowed(Some(a), public_origin),
    ensures
        origin_allowed(Some(b), public_origin) <==> crate::text::trimmed(
            crate::header::header_text(b@)->0,
        ) == crate::text::trimmed(crate::header::header_text(a@)->0),
        origin_allowed(None, public_origin),
{
}

/// An origin that has no white space around it is allowed exactly where it is the public one.
pub proof fn law_public_origin_is_allowed(origin: &[u8], named: Seq<char>, public_origin: Seq<char>)
    requires
        crate::header::header_text(origin@) == Some(named),
        named.len() > 0,
        !crate::text::is_white(named[0]),
        !crate::text::is_white(named.last()),
    ensures
        origin_allowed(Some(origin), public_origin) <==> named == public_origin,
{
    crate::text::law_trimming_is_done_once(named);
}

/// What is recorded as coming by the API carries a bearer token, and all else comes by the web.
pub proof fn law_api_channel_carries_a_token(authorization: Option<&[u8]>)
    ensures
        channel_of(authorization) == "api"@ || channel_of(authorization) == "web"@,
        (crate::header::readable(authorization) matches Some(a) && crate::text::begins(
            a,
            "Bearer "@,
        )) <==> channel_of(authorization) == "api"@,
{
    reveal_strlit("api");
    reveal_strlit("web");
    assert("api"@[0] != "web"@[0]);
}

} // verus!
