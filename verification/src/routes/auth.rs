//! Signing in and out, one's own profile, and passwords that were forgotten.

use vstd::prelude::*;
use vstd::string::*;
use crate::cookie;
use crate::cookie::{SessionCookie, clear_session_cookie, set_session_cookie};
use crate::error;
use crate::error::{AppError, DbFailure, ProblemCode};
use crate::header;
use crate::header::Header;
use crate::ids;
use crate::ids::Uuid;
use crate::json_input::{FamilyNamePatch, ProfilePatch};
use crate::rate_limit;
use crate::rate_limit::{RateLimiter, WINDOW, charge};
use crate::routes::account;
use crate::routes::account::{OkResponse, link_url, with_cookie};
use crate::text;
use crate::text::{join2, join4, trim};

verus! {

pub const LOGIN_PER_IP: u32 = 30;

pub const LOGIN_PER_EMAIL: u32 = 10;

/// Charges an attempt to sign in to its address in the network.
pub fn login_ip_limit(limiter: &mut RateLimiter, ip: &str, now: u64) -> (r: Result<(), AppError>)
    requires
        old(limiter).wf(),
    ensures
        final(limiter).wf(),
        rate_limit::charged_once(
            old(limiter)@,
            final(limiter)@,
            "login:ip:"@ + ip@,
            LOGIN_PER_IP,
            WINDOW,
            now,
            error::told(r),
        ),
{
    let key = join2("login:ip:", ip);
    charge(limiter, key.as_str(), LOGIN_PER_IP, WINDOW, now)
}

/// Charges an attempt to sign in to the address that it is made with.
pub fn login_email_limit(limiter: &mut RateLimiter, ip: &str, email: &str, now: u64) -> (r: Result<
    (),
    AppError,
>)
    requires
        old(limiter).wf(),
    ensures
        final(limiter).wf(),
        rate_limit::charged_once(
            old(limiter)@,
            final(limiter)@,
            "login:email:"@ + ip@ + ":"@ + email@,
            LOGIN_PER_EMAIL,
            WINDOW,
            now,
            error::told(r),
        ),
{
    let key = join4("login:email:", ip, ":", email);
    charge(limiter, key.as_str(), LOGIN_PER_EMAIL, WINDOW, now)
}

/// A password has to hold something.
pub fn check_password(password: &str) -> (r: Result<(), AppError>)
    ensures
        r is Ok <==> password@.len() > 0,
        r is Err ==> error::refused(r, ProblemCode::InvalidInput),
{
    if password.unicode_len() == 0 {
        Err(AppError::from_code(ProblemCode::InvalidInput))
    } else {
        Ok(())
    }
}

/// The cookie that carries the session of a user who signed in.
pub open spec fn session_headers(settings: SessionCookie, secure: bool, token: Seq<char>) -> Seq<
    (Seq<char>, Seq<char>),
> {
    account::cookie_headers(
        cookie::cookie_text(settings.name@, token, settings.ttl_secs as int, secure),
    )
}

/// The header that hands out a session.
pub fn issue_session(settings: &SessionCookie, secure: bool, token: &str) -> (r: Vec<Header>)
    ensures
        header::header_views(r@) == session_headers(*settings, secure, token@),
{
    let cookie = set_session_cookie(settings, secure, token);
    with_cookie(cookie.as_str())
}

/// The answer to an attempt to sign in: the user's id and a session, or one refusal for an unknown
/// address and a wrong password alike. What the name of the cookie and the token hold can be
/// sent.
pub fn login_reply(
    signed_in: Result<Option<(Uuid, String)>, DbFailure>,
    settings: &SessionCookie,
    secure: bool,
) -> (r: Result<(String, Vec<Header>), AppError>)
    requires
        header::sendable(settings.name@),
        signed_in matches Ok(Some(s)) ==> header::sendable(s.1@),
    ensures
        match signed_in {
            Err(_) => error::refused(r, ProblemCode::Internal),
            Ok(None) => error::refused(r, ProblemCode::InvalidEmailOrPassword),
            Ok(Some((user_id, token))) => r matches Ok(reply) && reply.0@ == ids::uuid_text(
                user_id.0,
            ) && header::header_views(reply.1@) == seq![
                (
                    "set-cookie"@,
                    cookie::cookie_text(settings.name@, token@, settings.ttl_secs as int, secure),
                ),
            ],
        },
{
    match signed_in {
        Err(_) => Err(AppError::internal()),
        Ok(None) => Err(AppError::from_code(ProblemCode::InvalidEmailOrPassword)),
        Ok(Some((user_id, token))) => {
            proof {
                cookie::law_cookie_is_sendable(
                    settings.name@,
                    token@,
                    settings.ttl_secs as int,
                    secure,
                );
            }
            let headers = issue_session(settings, secure, token.as_str());
            Ok((user_id.text(), headers))
        },
    }
}

/// The user of a session that is ended or asked about, where its id can be read.
pub fn acting_user(user_id: Option<&str>) -> (r: Option<Uuid>)
    ensures
        r == match user_id {
            Some(s) => ids::some_uuid(ids::uuid_of(s@)),
            None => None,
        },
{
    match user_id {
        Some(s) => Uuid::parse_str(s),
        None => None,
    }
}

/// The answer to a request to sign out: the browser forgets the session, whether there was one or
/// not.
pub fn logout_reply(settings: &SessionCookie, secure: bool) -> (r: (u16, Vec<Header>))
    requires
        header::sendable(settings.name@),
    ensures
        r.0 == 204,
        header::header_views(r.1@) == seq![
            ("set-cookie"@, cookie::cookie_text(settings.name@, ""@, 0, secure)),
        ],
{
    proof {
        reveal_strlit("");
        assert(header::sendable(""@));
        cookie::law_cookie_is_sendable(settings.name@, ""@, 0, secure);
    }
    let cookie = clear_session_cookie(settings, secure);
    (204, with_cookie(cookie.as_str()))
}

/// What the rules for profiles say of the parts of a change.
#[derive(Debug)]
pub struct ProfileChecks {
    pub given_name: Result<(), AppError>,
    pub locale: Result<(), AppError>,
    pub text_scale: Result<(), AppError>,
    pub week_starts_on: Result<(), AppError>,
    /// Of the family name without white space around it.
    pub family_name: Result<(), AppError>,
}

/// The first of the problems of a change of a profile.
pub open spec fn profile_problem(patch: ProfilePatch, checks: ProfileChecks) -> Option<
    error::ErrorView,
> {
    if checks.given_name is Err {
        Some(checks.given_name->Err_0@)
    } else if patch.locale is Some && checks.locale is Err {
        Some(checks.locale->Err_0@)
    } else if patch.text_scale is Some && checks.text_scale is Err {
        Some(checks.text_scale->Err_0@)
    } else if patch.week_starts_on is Some && checks.week_starts_on is Err {
        Some(checks.week_starts_on->Err_0@)
    } else if patch.timezone matches Some(tz) && text::trimmed(tz@).len() == 0 {
        Some(error::problem(ProblemCode::InvalidInput))
    } else {
        match patch.family_name {
            FamilyNamePatch::Replace(name) => if text::trimmed(name@).len() > 0
                && checks.family_name is Err {
                Some(checks.family_name->Err_0@)
            } else {
                None
            },
            _ => None,
        }
    }
}

/// What becomes of a family name: one of white space alone is taken away.
pub open spec fn settled_name(asked: FamilyNamePatch, settled: FamilyNamePatch) -> bool {
    match asked {
        FamilyNamePatch::Preserve => settled is Preserve,
        FamilyNamePatch::Clear => settled is Clear,
        FamilyNamePatch::Replace(name) => if text::trimmed(name@).len() == 0 {
            settled is Clear
        } else {
            settled matches FamilyNamePatch::Replace(s) && s@ == text::trimmed(name@)
        },
    }
}

/// Settles what becomes of a family name.
fn settle_family_name(asked: FamilyNamePatch, check: Result<(), AppError>) -> (r: Result<
    FamilyNamePatch,
    AppError,
>)
    ensures
        match r {
            Ok(settled) => settled_name(asked, settled) && !(asked matches FamilyNamePatch::Replace(
                name,
            ) && text::trimmed(name@).len() > 0 && check is Err),
            Err(e) => check == Err::<(), _>(e) && (asked matches FamilyNamePatch::Replace(name)
                && text::trimmed(name@).len() > 0),
        },
{
    match asked {
        FamilyNamePatch::Preserve => Ok(FamilyNamePatch::Preserve),
        FamilyNamePatch::Clear => Ok(FamilyNamePatch::Clear),
        FamilyNamePatch::Replace(name) => {
            let trimmed = trim(name.as_str());
            if trimmed.is_empty() {
                Ok(FamilyNamePatch::Clear)
            } else {
                match check {
                    Err(e) => Err(e),
                    Ok(_) => Ok(FamilyNamePatch::Replace(trimmed.to_owned())),
                }
            }
        },
    }
}

/// Checks a change of a profile, and strips its names of the white space around them.
pub fn check_profile(patch: ProfilePatch, checks: ProfileChecks) -> (r: Result<
    ProfilePatch,
    AppError,
>)
    ensures
        match r {
            Err(e) => profile_problem(patch, checks) == Some(e@),
            Ok(settled) => {
                &&& profile_problem(patch, checks) is None
                &&& settled.given_name@ == text::trimmed(patch.given_name@)
                &&& settled_name(patch.family_name, settled.family_name)
                &&& settled.locale == patch.locale
                &&& settled.timezone == patch.timezone
                &&& settled.week_starts_on == patch.week_starts_on
                &&& settled.text_scale == patch.text_scale
            },
        },
{
    if let Err(e) = checks.given_name {
        return Err(e);
    }
    if patch.locale.is_some() {
        if let Err(e) = checks.locale {
            return Err(e);
        }
    }
    if patch.text_scale.is_some() {
        if let Err(e) = checks.text_scale {
            return Err(e);
        }
    }
    if patch.week_starts_on.is_some() {
        if let Err(e) = checks.week_starts_on {
            return Err(e);
        }
    }
    if let Some(tz) = &patch.timezone {
        if trim(tz.as_str()).is_empty() {
            return Err(AppError::from_code(ProblemCode::InvalidInput));
        }
    }
    let family_name = match settle_family_name(patch.family_name, checks.family_name) {
        Err(e) => {
            return Err(e);
        },
        Ok(f) => f,
    };
    let given_name = trim(patch.given_name.as_str()).to_owned();
    Ok(
        ProfilePatch {
            given_name,
            family_name,
            locale: patch.locale,
            timezone: patch.timezone,
            week_starts_on: patch.week_starts_on,
            text_scale: patch.text_scale,
        },
    )
}

/// The answer to a change of a profile: a session that ended meanwhile changes nothing.
pub fn profile_patched<T>(updated: Result<Result<T, ()>, DbFailure>) -> (r: Result<T, AppError>)
    ensures
        match updated {
            Err(_) => error::refused(r, ProblemCode::Internal),
            Ok(Err(_)) => error::refused(r, ProblemCode::AuthenticationRequired),
            Ok(Ok(t)) => r == Ok::<T, AppError>(t),
        },
{
    match updated {
        Err(_) => Err(AppError::internal()),
        Ok(Err(_)) => Err(AppError::from_code(ProblemCode::AuthenticationRequired)),
        Ok(Ok(t)) => Ok(t),
    }
}

/// A user who may have forgotten a password.
#[derive(Clone, Copy, Debug, PartialEq, Eq, Structural)]
pub struct ResetUser {
    pub user_id: Uuid,
    pub generation: i64,
    pub suspended: bool,
}

/// The user for whom a token to set a new password is issued: none where the address is unknown
/// or the user suspended.
pub fn reset_for(user: Result<Option<ResetUser>, DbFailure>) -> (r: Result<
    Option<ResetUser>,
    AppError,
>)
    ensures
        match user {
            Err(_) => error::refused(r, ProblemCode::Internal),
            Ok(None) => r == Ok::<Option<ResetUser>, AppError>(None),
            Ok(Some(u)) => r == Ok::<_, AppError>(
                if u.suspended {
                    None
                } else {
                    Some(u)
                },
            ),
        },
{
    match user {
        Err(_) => Err(AppError::internal()),
        Ok(None) => Ok(None),
        Ok(Some(u)) => if u.suspended {
            Ok(None)
        } else {
            Ok(Some(u))
        },
    }
}

/// The address at which a new password is set.
pub fn reset_url(origin: &str, token: &str) -> (r: String)
    ensures
        r@ == account::link(origin@, "/reset-password"@, token@),
{
    link_url(origin, "/reset-password", token)
}

/// The answer to a new password that was set with a token.
pub fn reset_completed(done: Result<bool, DbFailure>) -> (r: Result<OkResponse, AppError>)
    ensures
        match done {
            Err(_) => error::refused(r, ProblemCode::Internal),
            Ok(false) => error::refused(r, ProblemCode::MagicInvalid),
            Ok(true) => r == Ok::<_, AppError>(OkResponse { ok: true }),
        },
{
    match done {
        Err(_) => Err(AppError::internal()),
        Ok(false) => Err(AppError::from_code(ProblemCode::MagicInvalid)),
        Ok(true) => Ok(OkResponse { ok: true }),
    }
}

/// A profile is changed as it was asked: names are trimmed, an empty family name is cleared, and
/// all else is taken as it is.
pub proof fn law_profile_is_changed_as_asked(
    patch: ProfilePatch,
    checks: ProfileChecks,
    r: Result<ProfilePatch, AppError>,
)
    requires
        call_ensures(check_profile, (patch, checks), r),
        r is Ok,
    ensures
        ({
            let settled = r->Ok_0;
            &&& settled.given_name@ == text::trimmed(patch.given_name@)
            &&& settled.locale == patch.locale
            &&& settled.timezone == patch.timezone
            &&& settled.week_starts_on == patch.week_starts_on
            &&& settled.text_scale == patch.text_scale
            &&& settled.family_name is Preserve <==> patch.family_name is Preserve
            &&& settled.family_name matches FamilyNamePatch::Replace(s) ==> s@.len() > 0 && (
            patch.family_name matches FamilyNamePatch::Replace(name) && s@ == text::trimmed(name@))
        }),
{
}

/// One who signed in is told their own id and given their own session, and no one else is given
/// any.
pub proof fn law_session_goes_to_its_user(
    signed_in: Result<Option<(Uuid, String)>, DbFailure>,
    settings: &SessionCookie,
    secure: bool,
    r: Result<(String, Vec<Header>), AppError>,
)
    requires
        header::sendable(settings.name@),
        signed_in matches Ok(Some(s)) ==> header::sendable(s.1@),
        call_ensures(login_reply, (signed_in, settings, secure), r),
    ensures
        r is Ok <==> signed_in matches Ok(Some(_)),
        r matches Ok(reply) ==> {
            let signed = signed_in->Ok_0->0;
            let headers = header::header_views(reply.1@);
            &&& ids::uuid_of(reply.0@) == Some(signed.0.0)
            &&& headers.len() == 1
            &&& headers[0].0 == "set-cookie"@
            &&& text::begins(headers[0].1, settings.name@ + "="@ + signed.1@)
        },
{
    if let Ok(reply) = r {
        let signed = signed_in->Ok_0->0;
        ids::law_uuid_round_trip(signed.0.0);
        let cookie = header::header_views(reply.1@)[0].1;
        let front = settings.name@ + "="@ + signed.1@;
        assert(cookie.subrange(0, front.len() as int) =~= front);
    }
}

/// What one address is told by this limit does not depend on the requests of another: `login_ip_limit`
/// answers `b` alike behind a request of `a` and without it.
pub proof fn law_login_ip_limit_is_one_for_each_address(
    first: &mut RateLimiter,
    second: &mut RateLimiter,
    alone: &mut RateLimiter,
    a: &str,
    b: &str,
    now: u64,
    later: u64,
    told_a: Result<(), AppError>,
    told_b: Result<(), AppError>,
    told_alone: Result<(), AppError>,
)
    requires
        first.wf(),
        second.wf(),
        alone.wf(),
        a@ != b@,
        old(first)@.dom().len() < rate_limit::MAX_KEYS,
        old(second)@ == final(first)@,
        old(alone)@ == old(first)@,
        call_ensures(login_ip_limit, (first, a, now), told_a),
        call_ensures(login_ip_limit, (second, b, later), told_b),
        call_ensures(login_ip_limit, (alone, b, later), told_alone),
    ensures
        told_b is Ok <==> told_alone is Ok,
        error::told(told_b) == error::told(told_alone),
{
    rate_limit::lemma_keys_apart("login:ip:"@, a@, b@);
    rate_limit::lemma_other_keys_stay(
        old(first)@,
        final(first)@,
        "login:ip:"@ + a@,
        LOGIN_PER_IP,
        WINDOW,
        now,
        "login:ip:"@ + b@,
    );
}

/// A password is reset for a user who is there and not suspended; whether there is one is not told.
pub proof fn law_reset_does_not_tell_who_is_there(
    user: Option<ResetUser>,
    r: Result<Option<ResetUser>, AppError>,
)
    requires
        call_ensures(reset_for, (Ok(user),), r),
    ensures
        r is Ok,
        r->Ok_0 is Some <==> user is Some && !user->0.suspended,
        r->Ok_0 is Some ==> r->Ok_0 == user,
{
}

/// Attempts to sign in with one address do not count against another at the same place.
pub proof fn law_login_email_limit_is_one_for_each_address(
    first: &mut RateLimiter,
    second: &mut RateLimiter,
    alone: &mut RateLimiter,
    ip: &str,
    a: &str,
    b: &str,
    now: u64,
    later: u64,
    told_a: Result<(), AppError>,
    told_b: Result<(), AppError>,
    told_alone: Result<(), AppError>,
)
    requires
        first.wf(),
        second.wf(),
        alone.wf(),
        a@ != b@,
        old(first)@.dom().len() < rate_limit::MAX_KEYS,
        old(second)@ == final(first)@,
        old(alone)@ == old(first)@,
        call_ensures(login_email_limit, (first, ip, a, now), told_a),
        call_ensures(login_email_limit, (second, ip, b, later), told_b),
        call_ensures(login_email_limit, (alone, ip, b, later), told_alone),
    ensures
        error::told(told_b) == error::told(told_alone),
{
    let front = "login:email:"@ + ip@ + ":"@;
    rate_limit::lemma_keys_apart(front, a@, b@);
    rate_limit::lemma_other_keys_stay(
        old(first)@,
        final(first)@,
        front + a@,
        LOGIN_PER_EMAIL,
        WINDOW,
        now,
        front + b@,
    );
}

} // verus!
