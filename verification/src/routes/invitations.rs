//! Invitations to a workspace.

use vstd::prelude::*;
use vstd::string::*;
use crate::answer;
use crate::answer::{Answer, answer_all};
use crate::error;
use crate::error::{AppError, DbFailure, ErrorView, ProblemCode};
use crate::ids;
use crate::ids::Uuid;
use crate::rate_limit;
use crate::rate_limit::{RateLimiter, WINDOW, charge};
use crate::text;
use crate::text::{join2, join3, join4, trim, trim_end_char};

verus! {

/// Invitations that one user may make, read and accept within five minutes.
pub const INVITE_CREATE_LIMIT: u32 = 30;

pub const INVITE_READ_LIMIT: u32 = 60;

pub const INVITE_ACCEPT_LIMIT: u32 = 30;

/// Why the store refused a request about an invitation.
#[derive(Clone, Copy, Debug, PartialEq, Eq, Structural)]
pub enum InvitationDbError {
    NotFound,
    Expired,
    AlreadyAccepted,
    Unauthorized,
    Forbidden,
    AlreadyLinked,
    ConsentRequired,
    SeatLimit,
    GuestLimit,
    PersonalImmutable,
    RoleCap,
}

/// The problem that one who accepts an invitation is told.
pub open spec fn accept_code(err: InvitationDbError) -> ProblemCode {
    match err {
        InvitationDbError::NotFound => ProblemCode::NotFound,
        InvitationDbError::Expired => ProblemCode::Expired,
        InvitationDbError::AlreadyAccepted => ProblemCode::AlreadyAccepted,
        InvitationDbError::Unauthorized | InvitationDbError::Forbidden
        | InvitationDbError::AlreadyLinked => ProblemCode::CannotAcceptInvitation,
        InvitationDbError::ConsentRequired => ProblemCode::ConsentRequired,
        InvitationDbError::SeatLimit => ProblemCode::LimitSeats,
        InvitationDbError::GuestLimit => ProblemCode::LimitGuests,
        InvitationDbError::PersonalImmutable | InvitationDbError::RoleCap => ProblemCode::NotFound,
    }
}

/// The problem that one who invites is told.
pub open spec fn create_code(err: InvitationDbError) -> ProblemCode {
    match err {
        InvitationDbError::NotFound => ProblemCode::NotFound,
        InvitationDbError::Forbidden => ProblemCode::InsufficientPermissions,
        InvitationDbError::PersonalImmutable => ProblemCode::PersonalWorkspaceImmutable,
        InvitationDbError::RoleCap => ProblemCode::CannotInviteARoleAboveYourOwn,
        other => accept_code(other),
    }
}

pub fn map_accept_error(err: InvitationDbError) -> (r: AppError)
    ensures
        r@ == error::problem(accept_code(err)),
{
    match err {
        InvitationDbError::NotFound => AppError::from_code(ProblemCode::NotFound),
        InvitationDbError::Expired => AppError::from_code(ProblemCode::Expired),
        InvitationDbError::AlreadyAccepted => AppError::from_code(ProblemCode::AlreadyAccepted),
        InvitationDbError::Unauthorized | InvitationDbError::Forbidden
        | InvitationDbError::AlreadyLinked => AppError::from_code(
            ProblemCode::CannotAcceptInvitation,
        ),
        InvitationDbError::ConsentRequired => AppError::from_code(ProblemCode::ConsentRequired),
        InvitationDbError::SeatLimit => AppError::from_code(ProblemCode::LimitSeats),
        InvitationDbError::GuestLimit => AppError::from_code(ProblemCode::LimitGuests),
        InvitationDbError::PersonalImmutable | InvitationDbError::RoleCap => AppError::from_code(
            ProblemCode::NotFound,
        ),
    }
}

pub fn map_create_error(err: InvitationDbError) -> (r: AppError)
    ensures
        r@ == error::problem(create_code(err)),
{
    match err {
        InvitationDbError::NotFound => AppError::from_code(ProblemCode::NotFound),
        InvitationDbError::Forbidden => AppError::from_code(ProblemCode::InsufficientPermissions),
        InvitationDbError::PersonalImmutable => AppError::from_code(
            ProblemCode::PersonalWorkspaceImmutable,
        ),
        InvitationDbError::RoleCap => AppError::from_code(
            ProblemCode::CannotInviteARoleAboveYourOwn,
        ),
        other => map_accept_error(other),
    }
}

/// Who only looks at an invitation learns nothing of why there is none.
pub fn map_preview_error(err: InvitationDbError) -> (r: AppError)
    ensures
        r@ == error::problem(ProblemCode::InvitationNotFoundOrExpired),
{
    AppError::from_code(ProblemCode::InvitationNotFoundOrExpired)
}

/// Whom an invitation is for, and as what. `email` is the address in normal form, or why it is
/// none; `role` what its name stands for, if anything.
pub fn invitation_input<R>(email: Result<String, AppError>, role: Option<R>) -> (r: Result<
    (String, R),
    AppError,
>)
    ensures
        match (email, role) {
            (Err(e), _) => r matches Err(x) && x@ == e@,
            (Ok(_), None) => error::refused(r, ProblemCode::InvalidInput),
            (Ok(a), Some(role)) => r == Ok::<_, AppError>((a, role)),
        },
{
    match email {
        Err(e) => Err(e),
        Ok(a) => match role {
            None => Err(AppError::from_code(ProblemCode::InvalidInput)),
            Some(role) => Ok((a, role)),
        },
    }
}

/// Charges a user with an invitation.
pub fn invite_limit(limiter: &mut RateLimiter, user_id: Uuid, now: u64) -> (r: Result<
    (),
    AppError,
>)
    requires
        old(limiter).wf(),
    ensures
        final(limiter).wf(),
        rate_limit::charged_once(
            old(limiter)@,
            final(limiter)@,
            "invite-create:"@ + ids::uuid_text(user_id.0),
            INVITE_CREATE_LIMIT,
            WINDOW,
            now,
            error::told(r),
        ),
{
    let id = user_id.text();
    let key = join2("invite-create:", id.as_str());
    charge(limiter, key.as_str(), INVITE_CREATE_LIMIT, WINDOW, now)
}

/// The address at which an invitation is accepted.
pub open spec fn accept_link(origin: Seq<char>, token: Seq<char>) -> Seq<char> {
    text::without_trailing(origin, '/') + "/invite/"@ + token
}

/// The address at which an invitation is accepted, where one was made.
pub fn invitation_made(
    done: Result<Result<String, InvitationDbError>, DbFailure>,
    origin: &str,
) -> (r: Result<String, AppError>)
    ensures
        match done {
            Err(_) => error::refused(r, ProblemCode::Internal),
            Ok(Err(err)) => error::refused(r, create_code(err)),
            Ok(Ok(token)) => r matches Ok(url) && url@ == accept_link(origin@, token@),
        },
{
    match done {
        Err(_) => Err(AppError::internal()),
        Ok(Err(err)) => Err(map_create_error(err)),
        Ok(Ok(token)) => Ok(join3(trim_end_char(origin, '/'), "/invite/", token.as_str())),
    }
}

/// The answer to an invitation.
#[derive(Debug)]
pub struct InvitationCreateResponse {
    pub accept_url: String,
    pub mail_delayed: Option<bool>,
}

/// The answer to an invitation: it stands even where the mail could not be sent.
pub fn invitation_reply(accept_url: String, mail_sent: bool) -> (r: InvitationCreateResponse)
    ensures
        r.accept_url == accept_url,
        r.mail_delayed == if mail_sent {
            None
        } else {
            Some(true)
        },
{
    InvitationCreateResponse {
        accept_url,
        mail_delayed: if mail_sent {
            None
        } else {
            Some(true)
        },
    }
}

/// Charges an address with a look at an invitation, which has to have a token.
pub fn preview_limit(limiter: &mut RateLimiter, token: &str, ip: &str, now: u64) -> (r: Result<
    (),
    AppError,
>)
    requires
        old(limiter).wf(),
    ensures
        final(limiter).wf(),
        if token@.len() == 0 {
            final(limiter)@ == old(limiter)@ && error::refused(
                r,
                ProblemCode::InvitationNotFoundOrExpired,
            )
        } else {
            rate_limit::charged_once(
                old(limiter)@,
                final(limiter)@,
                "invite-read:"@ + ip@,
                INVITE_READ_LIMIT,
                WINDOW,
                now,
                error::told(r),
            )
        },
{
    if token.unicode_len() == 0 {
        return Err(AppError::from_code(ProblemCode::InvitationNotFoundOrExpired));
    }
    let key = join2("invite-read:", ip);
    charge(limiter, key.as_str(), INVITE_READ_LIMIT, WINDOW, now)
}

/// A legal document that one who accepts has to consent to, as the store keeps it.
#[derive(Debug)]
pub struct RequiredLegal {
    pub kind: String,
    pub version: i32,
    pub title: String,
}

/// A legal document that one who accepts has to consent to as it is answered.
#[derive(Debug)]
pub struct InvitationLegalDocument {
    pub kind: String,
    pub version: i32,
    pub title: String,
}

impl Answer for RequiredLegal {
    type Out = InvitationLegalDocument;

    open spec fn answered(&self, out: &InvitationLegalDocument) -> bool {
        out.kind@ == self.kind@ && out.version == self.version && out.title@ == self.title@
    }

    fn answer(&self) -> (r: InvitationLegalDocument) {
        InvitationLegalDocument {
            kind: self.kind.clone(),
            version: self.version,
            title: self.title.clone(),
        }
    }
}

/// An invitation, as the store shows it.
#[derive(Debug)]
pub struct InvitationPreview {
    pub workspace_name: String,
    pub email_masked: String,
    pub role: String,
    pub required_legal: Vec<RequiredLegal>,
}

/// An invitation as it is answered.
#[derive(Debug)]
pub struct InvitationPublicResponse {
    pub workspace_name: String,
    pub email_masked: String,
    pub role: String,
    pub required_legal: Vec<InvitationLegalDocument>,
}

impl Answer for InvitationPreview {
    type Out = InvitationPublicResponse;

    open spec fn answered(&self, out: &InvitationPublicResponse) -> bool {
        &&& out.workspace_name@ == self.workspace_name@
        &&& out.email_masked@ == self.email_masked@
        &&& out.role@ == self.role@
        &&& answer::all_answered(self.required_legal@, out.required_legal@)
    }

    fn answer(&self) -> (r: InvitationPublicResponse) {
        InvitationPublicResponse {
            workspace_name: self.workspace_name.clone(),
            email_masked: self.email_masked.clone(),
            role: self.role.clone(),
            required_legal: answer_all(self.required_legal.as_slice()),
        }
    }
}

/// The answer to a look at an invitation.
pub fn preview_reply(
    found: Result<Result<InvitationPreview, InvitationDbError>, DbFailure>,
) -> (r: Result<InvitationPublicResponse, AppError>)
    ensures
        match found {
            Err(_) => error::refused(r, ProblemCode::Internal),
            Ok(Err(_)) => error::refused(r, ProblemCode::InvitationNotFoundOrExpired),
            Ok(Ok(p)) => r matches Ok(out) && p.answered(&out),
        },
{
    match found {
        Err(_) => Err(AppError::internal()),
        Ok(Err(err)) => Err(map_preview_error(err)),
        Ok(Ok(p)) => Ok(p.answer()),
    }
}

/// The first characters of a digest, at most eight.
pub open spec fn first_eight(digest: Seq<char>) -> Seq<char> {
    if digest.len() <= 8 {
        digest
    } else {
        digest.subrange(0, 8)
    }
}

/// Charges an address with the acceptance of an invitation, which has to have a token. `digest`
/// is that of the token: the key of the limit holds only its start.
pub fn accept_limit(
    limiter: &mut RateLimiter,
    token: &str,
    digest: &str,
    ip: &str,
    now: u64,
) -> (r: Result<(), AppError>)
    requires
        old(limiter).wf(),
    ensures
        final(limiter).wf(),
        if token@.len() == 0 {
            final(limiter)@ == old(limiter)@ && error::refused(r, ProblemCode::NotFound)
        } else {
            rate_limit::charged_once(
                old(limiter)@,
                final(limiter)@,
                "invite-accept:"@ + ip@ + ":"@ + first_eight(digest@),
                INVITE_ACCEPT_LIMIT,
                WINDOW,
                now,
                error::told(r),
            )
        },
{
    if token.unicode_len() == 0 {
        return Err(AppError::from_code(ProblemCode::NotFound));
    }
    let start = if digest.unicode_len() <= 8 {
        digest
    } else {
        digest.substring_char(0, 8)
    };
    let key = join4("invite-accept:", ip, ":", start);
    charge(limiter, key.as_str(), INVITE_ACCEPT_LIMIT, WINDOW, now)
}

/// What one who accepts an invitation says of themselves.
#[derive(Debug)]
pub struct AcceptBody {
    pub email: Option<String>,
    pub given_name: Option<String>,
    pub family_name: Option<String>,
    pub password: Option<String>,
    pub consents: Option<Vec<(String, i32)>>,
}

/// What the rules say of what one who accepts an invitation says of themselves.
#[derive(Debug)]
pub struct AcceptChecks {
    pub password: Result<(), AppError>,
    /// Whether the settings of the instance, which a new user starts with, could be read.
    pub settings: Result<(), DbFailure>,
    /// The address in normal form, or why it is none.
    pub email: Result<String, AppError>,
    pub given_name: Result<(), AppError>,
    pub family_name: Result<(), AppError>,
}

/// An invitation to be accepted.
#[derive(Debug)]
pub struct AcceptInput {
    pub email: Option<String>,
    pub given_name: Option<String>,
    pub family_name: Option<String>,
    pub password: Option<String>,
    pub consents: Vec<(String, i32)>,
}

/// The problem of one who accepts an invitation, if there is one: with the password, then with the
/// settings, then with the address, the given name and the family name, as far as they are given.
pub open spec fn accept_problem(body: AcceptBody, checks: AcceptChecks) -> Option<ErrorView> {
    if body.password is Some && checks.password is Err {
        Some(checks.password->Err_0@)
    } else if checks.settings is Err {
        Some(error::problem(ProblemCode::Internal))
    } else if body.email is Some && checks.email is Err {
        Some(checks.email->Err_0@)
    } else if body.given_name is Some && checks.given_name is Err {
        Some(checks.given_name->Err_0@)
    } else if body.family_name is Some && checks.family_name is Err {
        Some(checks.family_name->Err_0@)
    } else {
        None
    }
}

/// Reads what one who accepts an invitation says of themselves.
pub fn accept_input(body: AcceptBody, checks: AcceptChecks) -> (r: Result<AcceptInput, AppError>)
    ensures
        match r {
            Err(e) => accept_problem(body, checks) == Some(e@),
            Ok(input) => {
                &&& accept_problem(body, checks) is None
                &&& match body.email {
                    Some(_) => checks.email matches Ok(a) && input.email == Some(a),
                    None => input.email is None,
                }
                &&& match body.given_name {
                    Some(g) => input.given_name matches Some(t) && t@ == text::trimmed(g@),
                    None => input.given_name is None,
                }
                &&& input.family_name == body.family_name
                &&& input.password == body.password
                &&& match body.consents {
                    Some(c) => input.consents == c,
                    None => input.consents@.len() == 0,
                }
            },
        },
{
    if body.password.is_some() {
        if let Err(e) = checks.password {
            return Err(e);
        }
    }
    if checks.settings.is_err() {
        return Err(AppError::internal());
    }
    let email = match body.email {
        Some(_) => match checks.email {
            Ok(a) => Some(a),
            Err(e) => {
                return Err(e);
            },
        },
        None => None,
    };
    let given_name = match body.given_name {
        Some(g) => {
            if let Err(e) = checks.given_name {
                return Err(e);
            }
            Some(trim(g.as_str()).to_owned())
        },
        None => None,
    };
    if body.family_name.is_some() {
        if let Err(e) = checks.family_name {
            return Err(e);
        }
    }
    let consents = match body.consents {
        Some(c) => c,
        None => Vec::new(),
    };
    Ok(
        AcceptInput {
            email,
            given_name,
            family_name: body.family_name,
            password: body.password,
            consents,
        },
    )
}

/// What became of the acceptance of an invitation.
pub fn accepted<T>(done: Result<Result<T, InvitationDbError>, DbFailure>) -> (r: Result<
    T,
    AppError,
>)
    ensures
        match done {
            Err(_) => error::refused(r, ProblemCode::Internal),
            Ok(Err(err)) => error::refused(r, accept_code(err)),
            Ok(Ok(t)) => r == Ok::<T, AppError>(t),
        },
{
    match done {
        Err(_) => Err(AppError::internal()),
        Ok(Err(err)) => Err(map_accept_error(err)),
        Ok(Ok(t)) => Ok(t),
    }
}

/// Each value of an invitation preview is answered under the name that it is kept by.
pub proof fn law_invitation_preview_is_answered_as_kept(
    row: InvitationPreview,
    out: InvitationPublicResponse,
)
    requires
        row.answered(&out),
    ensures
        out.workspace_name@ == row.workspace_name@,
        out.email_masked@ == row.email_masked@,
        out.role@ == row.role@,
        answer::all_answered(row.required_legal@, out.required_legal@),
{
}

/// An invitation is accepted with what was given, under the same names; a name is trimmed, and the
/// address is the one that the check settled on.
pub proof fn law_invitation_is_accepted_as_given(
    body: AcceptBody,
    checks: AcceptChecks,
    r: Result<AcceptInput, AppError>,
)
    requires
        call_ensures(accept_input, (body, checks), r),
        r is Ok,
    ensures
        ({
            let input = r->Ok_0;
            &&& input.password == body.password
            &&& input.family_name == body.family_name
            &&& input.email is Some <==> body.email is Some
            &&& input.email matches Some(e) ==> checks.email == Ok::<_, AppError>(e)
            &&& input.given_name is Some <==> body.given_name is Some
            &&& body.given_name matches Some(g) ==> input.given_name->0@ == text::trimmed(g@)
            &&& body.consents matches Some(c) ==> input.consents == c
            &&& body.consents is None ==> input.consents@.len() == 0
        }),
{
}

/// What is used of a digest begins it, and is eight characters where it has as many.
pub proof fn law_first_eight_begin_the_digest(digest: Seq<char>)
    ensures
        text::begins(digest, first_eight(digest)),
        first_eight(digest).len() == if digest.len() < 8 {
            digest.len()
        } else {
            8
        },
{
    assert(digest.subrange(0, digest.len() as int) =~= digest);
}

/// What one user is told by this limit does not depend on the requests of another: `invite_limit`
/// answers `b` alike behind a request of `a` and without it.
pub proof fn law_invite_limit_is_one_for_each_user(
    first: &mut RateLimiter,
    second: &mut RateLimiter,
    alone: &mut RateLimiter,
    a: Uuid,
    b: Uuid,
    now: u64,
    later: u64,
    told_a: Result<(), AppError>,
    told_b: Result<(), AppError>,
    told_alone: Result<(), AppError>,
)
    requires
        first.wf(),
        second.wf(),
        alone.wf(),
        a != b,
        old(first)@.dom().len() < rate_limit::MAX_KEYS,
        old(second)@ == final(first)@,
        old(alone)@ == old(first)@,
        call_ensures(invite_limit, (first, a, now), told_a),
        call_ensures(invite_limit, (second, b, later), told_b),
        call_ensures(invite_limit, (alone, b, later), told_alone),
    ensures
        told_b is Ok <==> told_alone is Ok,
        error::told(told_b) == error::told(told_alone),
{
    ids::law_uuid_texts_are_apart(a.0, b.0);
    rate_limit::lemma_keys_apart("invite-create:"@, ids::uuid_text(a.0), ids::uuid_text(b.0));
    rate_limit::lemma_other_keys_stay(
        old(first)@,
        final(first)@,
        "invite-create:"@ + ids::uuid_text(a.0),
        INVITE_CREATE_LIMIT,
        WINDOW,
        now,
        "invite-create:"@ + ids::uuid_text(b.0),
    );
}

} // verus!
