//! The first setup of an instance.

use vstd::prelude::*;
use vstd::string::*;
use crate::cookie;
use crate::cookie::SessionCookie;
use crate::error;
use crate::error::{AppError, DbFailure, ProblemCode};
use crate::header;
use crate::header::Header;
use crate::ids;
use crate::ids::Uuid;
use crate::rate_limit;
use crate::rate_limit::{RateLimiter, WINDOW};
use crate::routes::auth::issue_session;
use crate::text;
use crate::text::{join2, trim};

verus! {

/// Attempts to set up an instance that one address may make within five minutes.
pub const SETUP_PER_IP: u32 = 10;

/// The fewest bytes of a password.
pub const SETUP_PASSWORD_MIN: usize = 10;

/// Charges an attempt to set up an instance.
pub fn setup_limit(limiter: &mut RateLimiter, ip: &str, now: u64) -> (r: Result<(), AppError>)
    requires
        old(limiter).wf(),
    ensures
        final(limiter).wf(),
        rate_limit::charged(
            old(limiter)@,
            final(limiter)@,
            "setup:ip:"@ + ip@,
            SETUP_PER_IP,
            WINDOW,
            now,
        ),
        r is Ok <==> rate_limit::request_outcome(
            old(limiter)@,
            "setup:ip:"@ + ip@,
            SETUP_PER_IP,
            WINDOW,
            now,
        ) is Ok,
        r is Err ==> error::refused(r, ProblemCode::RateLimited),
{
    let key = join2("setup:ip:", ip);
    match limiter.allow(key.as_str(), SETUP_PER_IP, now) {
        Ok(_) => Ok(()),
        Err(_) => Err(AppError::from_code(ProblemCode::RateLimited)),
    }
}

/// The body of a request to set up an instance.
#[derive(Debug)]
pub struct SetupBody {
    pub email: String,
    pub password: String,
    pub given_name: String,
    pub family_name: Option<String>,
    pub workspace_slug: String,
    pub workspace_name: String,
}

/// What an instance is set up with.
#[derive(Debug)]
pub struct SetupInput {
    pub email: String,
    pub password: String,
    pub given_name: String,
    pub family_name: Option<String>,
    pub workspace_slug: String,
    pub workspace_name: String,
}

/// The problem of a request to set up an instance, if it has one: a password that is too short,
/// then what the rules say of the address, the name of the workspace in URLs and the given name,
/// then a workspace without a name.
pub open spec fn setup_problem(
    body: SetupBody,
    email: Result<String, AppError>,
    slug: Result<String, AppError>,
    given_name: Result<(), AppError>,
) -> Option<error::ErrorView> {
    if vstd::utf8::encode_utf8(body.password@).len() < SETUP_PASSWORD_MIN {
        Some(error::problem_with(400, ProblemCode::PasswordInvalid))
    } else if email is Err {
        Some(email->Err_0@)
    } else if slug is Err {
        Some(slug->Err_0@)
    } else if given_name is Err {
        Some(given_name->Err_0@)
    } else if text::trimmed(body.workspace_name@).len() == 0 {
        Some(error::problem_with(400, ProblemCode::InvalidInput))
    } else {
        None
    }
}

/// Reads a request to set up an instance. `email` and `slug` are its address and name in normal
/// form, or why they are none.
pub fn setup_input(
    body: SetupBody,
    email: Result<String, AppError>,
    slug: Result<String, AppError>,
    given_name: Result<(), AppError>,
) -> (r: Result<SetupInput, AppError>)
    ensures
        match r {
            Err(e) => setup_problem(body, email, slug, given_name) == Some(e@),
            Ok(input) => {
                &&& setup_problem(body, email, slug, given_name) is None
                &&& email == Ok::<_, AppError>(input.email)
                &&& input.password == body.password
                &&& input.given_name@ == text::trimmed(body.given_name@)
                &&& match body.family_name {
                    Some(f) => input.family_name matches Some(g) && g@ == text::trimmed(f@),
                    None => input.family_name is None,
                }
                &&& slug == Ok::<_, AppError>(input.workspace_slug)
                &&& input.workspace_name == body.workspace_name
            },
        },
{
    if body.password.as_str().as_bytes().len() < SETUP_PASSWORD_MIN {
        return Err(AppError::problem(400, ProblemCode::PasswordInvalid));
    }
    let email = match email {
        Err(e) => {
            return Err(e);
        },
        Ok(e) => e,
    };
    let workspace_slug = match slug {
        Err(e) => {
            return Err(e);
        },
        Ok(s) => s,
    };
    if let Err(e) = given_name {
        return Err(e);
    }
    if trim(body.workspace_name.as_str()).is_empty() {
        return Err(AppError::problem(400, ProblemCode::InvalidInput));
    }
    let given = trim(body.given_name.as_str()).to_owned();
    let family_name = match &body.family_name {
        Some(f) => Some(trim(f.as_str()).to_owned()),
        None => None,
    };
    Ok(
        SetupInput {
            email,
            password: body.password,
            given_name: given,
            family_name,
            workspace_slug,
            workspace_name: body.workspace_name,
        },
    )
}

/// Why an instance was not set up.
#[derive(Clone, Copy, Debug, PartialEq, Eq, Structural)]
pub enum SetupError {
    /// It was set up before.
    Closed,
    SlugTaken,
}

/// An instance that was set up.
#[derive(Debug)]
pub struct SetupDone {
    pub user_id: Uuid,
    pub workspace_id: Uuid,
    pub token: String,
}

/// The answer to the setup of an instance.
#[derive(Debug)]
pub struct SetupResponse {
    pub user_id: String,
    pub workspace_id: String,
}

/// The answer to the setup of an instance: the first user is signed in. What the name of the
/// cookie and the token hold can be sent.
pub fn setup_reply(
    done: Result<Result<SetupDone, SetupError>, DbFailure>,
    settings: &SessionCookie,
    secure: bool,
) -> (r: Result<(SetupResponse, Vec<Header>), AppError>)
    requires
        header::sendable(settings.name@),
        done matches Ok(Ok(d)) ==> header::sendable(d.token@),
    ensures
        match done {
            Err(_) => r matches Err(e) && e@ == error::problem_with(
                500,
                ProblemCode::InvalidInput,
            ),
            Ok(Err(SetupError::Closed)) => error::refused(
                r,
                ProblemCode::InstanceSetupAlreadyCompleted,
            ),
            Ok(Err(SetupError::SlugTaken)) => error::refused(r, ProblemCode::SlugTaken),
            Ok(Ok(d)) => r matches Ok(reply) && {
                &&& reply.0.user_id@ == ids::uuid_text(d.user_id.0)
                &&& reply.0.workspace_id@ == ids::uuid_text(d.workspace_id.0)
                &&& header::header_views(reply.1@) == seq![
                    (
                        "set-cookie"@,
                        cookie::cookie_text(
                            settings.name@,
                            d.token@,
                            settings.ttl_secs as int,
                            secure,
                        ),
                    ),
                ]
            },
        },
{
    match done {
        Err(_) => Err(AppError::problem(500, ProblemCode::InvalidInput)),
        Ok(Err(SetupError::Closed)) => Err(
            AppError::from_code(ProblemCode::InstanceSetupAlreadyCompleted),
        ),
        Ok(Err(SetupError::SlugTaken)) => Err(AppError::from_code(ProblemCode::SlugTaken)),
        Ok(Ok(d)) => {
            proof {
                cookie::law_cookie_is_sendable(
                    settings.name@,
                    d.token@,
                    settings.ttl_secs as int,
                    secure,
                );
            }
            let headers = issue_session(settings, secure, d.token.as_str());
            Ok(
                (
                    SetupResponse {
                        user_id: d.user_id.text(),
                        workspace_id: d.workspace_id.text(),
                    },
                    headers,
                ),
            )
        },
    }
}

/// Whether an instance still has to be set up, and the name that it goes by.
#[derive(Debug)]
pub struct SetupStatusResponse {
    pub needed: bool,
    pub branding_name: String,
}

/// The answer whether an instance still has to be set up.
pub fn setup_status(needed: Result<bool, DbFailure>, branding_name: &str) -> (r: Result<
    SetupStatusResponse,
    AppError,
>)
    ensures
        match needed {
            Err(_) => r matches Err(e) && e@ == error::problem_with(
                500,
                ProblemCode::InvalidInput,
            ),
            Ok(n) => r matches Ok(s) && s.needed == n && s.branding_name@ == branding_name@,
        },
{
    match needed {
        Err(_) => Err(AppError::problem(500, ProblemCode::InvalidInput)),
        Ok(needed) => Ok(
            SetupStatusResponse { needed, branding_name: branding_name.to_owned() },
        ),
    }
}

/// An instance is set up with what was given, under the same names; names are trimmed.
pub proof fn law_setup_takes_what_was_given(
    body: SetupBody,
    email: String,
    slug: String,
    r: Result<SetupInput, AppError>,
)
    requires
        call_ensures(setup_input, (body, Ok(email), Ok(slug), Ok(())), r),
    ensures
        r is Ok <==> vstd::utf8::encode_utf8(body.password@).len() >= SETUP_PASSWORD_MIN
            && text::trimmed(body.workspace_name@).len() > 0,
        r matches Ok(input) ==> {
            &&& input.email == email
            &&& input.workspace_slug == slug
            &&& input.password == body.password
            &&& input.workspace_name == body.workspace_name
            &&& input.given_name@ == text::trimmed(body.given_name@)
            &&& input.family_name is Some <==> body.family_name is Some
            &&& body.family_name matches Some(f) ==> input.family_name->0@ == text::trimmed(f@)
        },
{
}

/// One who set an instance up is told their own id and that of the first workspace, and is signed
/// in.
pub proof fn law_setup_signs_its_user_in(
    done: SetupDone,
    settings: &SessionCookie,
    secure: bool,
    r: Result<(SetupResponse, Vec<Header>), AppError>,
)
    requires
        header::sendable(settings.name@),
        header::sendable(done.token@),
        call_ensures(setup_reply, (Ok(Ok(done)), settings, secure), r),
    ensures
        r is Ok,
        ids::uuid_of(r->Ok_0.0.user_id@) == Some(done.user_id.0),
        ids::uuid_of(r->Ok_0.0.workspace_id@) == Some(done.workspace_id.0),
        header::header_views(r->Ok_0.1@).len() == 1,
        header::header_views(r->Ok_0.1@)[0] == (
            "set-cookie"@,
            cookie::cookie_text(settings.name@, done.token@, settings.ttl_secs as int, secure),
        ),
{
    ids::law_uuid_round_trip(done.user_id.0);
    ids::law_uuid_round_trip(done.workspace_id.0);
}

} // verus!
