//! The life of an account: withdrawal, change of address and password, links by mail, and the
//! export of what a user has written.
//!
//! The limits of the routes for sessions are charged to a `RequestAuth`, so that only a caller
//! who was recognised fills a bucket.

use vstd::prelude::*;
use vstd::string::*;
use crate::answer::Answer;
use crate::authz::RequestAuth;
use crate::cookie;
use crate::cookie::{SessionCookie, clear_session_cookie};
use crate::error;
use crate::error::{AppError, DbFailure, ProblemCode};
use crate::header;
use crate::header::{Header, can_send, put};
use crate::ids;
use crate::ids::Uuid;
use crate::query;
use crate::query::lookup;
use crate::rate_limit;
use crate::rate_limit::{RateLimiter, WINDOW, charge, charge_both};
use crate::text;
use crate::text::{join2, join3, join4, same, trim_end_char};

verus! {

pub const WITHDRAW_PER_IP: u32 = 30;

pub const WITHDRAW_PER_ACCOUNT: u32 = 10;

pub const CANCEL_WITHDRAW_PER_IP: u32 = 30;

pub const PASSWORD_CHANGE_PER_IP: u32 = 30;

pub const PASSWORD_CHANGE_PER_ACCOUNT: u32 = 10;

pub const USER_EXPORT_PER_USER: u32 = 5;

pub const USER_EXPORT_WINDOW: u64 = 900_000_000_000;

/// Chunks in flight between the writer of an export and the response.
pub const EXPORT_CHANNEL_DEPTH: usize = 4;

/// The declared bytes of the files of an export that still leave room in a 32-bit archive.
pub const EXPORT_MAX_BYTES: u64 = 4_227_858_431;

/// The files that an export may have.
pub const EXPORT_MAX_FILES: usize = 60_000;

/// `{"ok": true}`
#[derive(Clone, Copy, Debug, PartialEq, Eq, Structural)]
pub struct OkResponse {
    pub ok: bool,
}

impl Answer for () {
    type Out = OkResponse;

    open spec fn answered(&self, out: &OkResponse) -> bool {
        out.ok
    }

    fn answer(&self) -> (r: OkResponse) {
        OkResponse { ok: true }
    }
}

/// A value that has to hold something.
pub fn non_empty(value: String) -> (r: Result<String, AppError>)
    ensures
        match r {
            Ok(v) => v == value && value@.len() > 0,
            Err(e) => value@.len() == 0 && e@ == error::problem_at(
                ProblemCode::InvalidInput,
                "/"@,
            ),
        },
{
    if value.as_str().unicode_len() == 0 {
        Err(AppError::with_source(ProblemCode::InvalidInput, "/"))
    } else {
        Ok(value)
    }
}

/// The address of a page for the holder of a token.
pub open spec fn link(origin: Seq<char>, path: Seq<char>, token: Seq<char>) -> Seq<char> {
    text::without_trailing(origin, '/') + path + "?token="@ + token
}

/// The address of a page for the holder of a token.
pub fn link_url(origin: &str, path: &str, token: &str) -> (r: String)
    ensures
        r@ == link(origin@, path@, token@),
{
    join4(trim_end_char(origin, '/'), path, "?token=", token)
}

/// Appends a cookie to a response, where it can be sent.
pub open spec fn cookie_headers(cookie: Seq<char>) -> Seq<(Seq<char>, Seq<char>)> {
    if header::sendable(cookie) {
        seq![("set-cookie"@, cookie)]
    } else {
        Seq::empty()
    }
}

/// The header that sets a cookie.
pub fn with_cookie(cookie: &str) -> (r: Vec<Header>)
    ensures
        header::header_views(r@) == cookie_headers(cookie@),
{
    let mut headers: Vec<Header> = Vec::new();
    assert(header::header_views(headers@) == Seq::<(Seq<char>, Seq<char>)>::empty());
    if can_send(cookie) {
        put(&mut headers, "set-cookie", cookie);
    }
    headers
}

/// The key of a limit per address and user.
pub open spec fn account_key(prefix: Seq<char>, ip: Seq<char>, user: Uuid) -> Seq<char> {
    prefix + ip + ":"@ + ids::uuid_text(user.0)
}

/// Charges a request to withdraw.
pub fn withdraw_limits(limiter: &mut RateLimiter, ip: &str, auth: &RequestAuth, now: u64) -> (r:
    Result<(), AppError>)
    requires
        old(limiter).wf(),
    ensures
        final(limiter).wf(),
        rate_limit::charged_twice(
            old(limiter)@,
            final(limiter)@,
            ("withdraw-ip:"@ + ip@, WITHDRAW_PER_IP),
            (account_key("withdraw-account:"@, ip@, auth.user_id), WITHDRAW_PER_ACCOUNT),
            WINDOW,
            now,
            error::told(r),
        ),
{
    let user = auth.user_id.text();
    let by_ip = join2("withdraw-ip:", ip);
    let by_account = join4("withdraw-account:", ip, ":", user.as_str());
    charge_both(
        limiter,
        by_ip.as_str(),
        WITHDRAW_PER_IP,
        by_account.as_str(),
        WITHDRAW_PER_ACCOUNT,
        WINDOW,
        now,
    )
}

/// Charges a change of password.
pub fn password_change_limits(
    limiter: &mut RateLimiter,
    ip: &str,
    auth: &RequestAuth,
    now: u64,
) -> (r: Result<(), AppError>)
    requires
        old(limiter).wf(),
    ensures
        final(limiter).wf(),
        rate_limit::charged_twice(
            old(limiter)@,
            final(limiter)@,
            ("password-change-ip:"@ + ip@, PASSWORD_CHANGE_PER_IP),
            (
                account_key("password-change-account:"@, ip@, auth.user_id),
                PASSWORD_CHANGE_PER_ACCOUNT,
            ),
            WINDOW,
            now,
            error::told(r),
        ),
{
    let user = auth.user_id.text();
    let by_ip = join2("password-change-ip:", ip);
    let by_account = join4("password-change-account:", ip, ":", user.as_str());
    charge_both(
        limiter,
        by_ip.as_str(),
        PASSWORD_CHANGE_PER_IP,
        by_account.as_str(),
        PASSWORD_CHANGE_PER_ACCOUNT,
        WINDOW,
        now,
    )
}

/// Charges the cancellation of a withdrawal.
pub fn cancel_withdraw_limit(limiter: &mut RateLimiter, ip: &str, now: u64) -> (r: Result<
    (),
    AppError,
>)
    requires
        old(limiter).wf(),
    ensures
        final(limiter).wf(),
        rate_limit::charged_once(
            old(limiter)@,
            final(limiter)@,
            "cancel-withdraw-ip:"@ + ip@,
            CANCEL_WITHDRAW_PER_IP,
            WINDOW,
            now,
            error::told(r),
        ),
{
    let key = join2("cancel-withdraw-ip:", ip);
    charge(limiter, key.as_str(), CANCEL_WITHDRAW_PER_IP, WINDOW, now)
}

/// Charges a request for, or a use of, a link by mail to its address in the network.
pub fn magic_ip_limit(limiter: &mut RateLimiter, ip: &str, per_ip: u32, now: u64) -> (r: Result<
    (),
    AppError,
>)
    requires
        old(limiter).wf(),
    ensures
        final(limiter).wf(),
        rate_limit::charged_once(
            old(limiter)@,
            final(limiter)@,
            "magic-ip:"@ + ip@,
            per_ip,
            WINDOW,
            now,
            error::told(r),
        ),
{
    let key = join2("magic-ip:", ip);
    charge(limiter, key.as_str(), per_ip, WINDOW, now)
}

/// Charges a request for a link by mail to the address that it is for.
pub fn magic_email_limit(
    limiter: &mut RateLimiter,
    ip: &str,
    email: &str,
    per_email: u32,
    now: u64,
) -> (r: Result<(), AppError>)
    requires
        old(limiter).wf(),
    ensures
        final(limiter).wf(),
        rate_limit::charged_once(
            old(limiter)@,
            final(limiter)@,
            "magic-email:"@ + ip@ + ":"@ + email@,
            per_email,
            WINDOW,
            now,
            error::told(r),
        ),
{
    let key = join4("magic-email:", ip, ":", email);
    charge(limiter, key.as_str(), per_email, WINDOW, now)
}

/// The body of a request to withdraw.
#[derive(Debug)]
pub struct WithdrawBody {
    pub current_password: Option<String>,
    pub email_local_part: Option<String>,
}

/// How a withdrawal is to be confirmed.
#[derive(Debug)]
pub enum WithdrawAsk {
    /// By a password that is still to be checked.
    Password(String),
    /// By the part of the address before the `@`.
    EmailLocalPart(String),
}

/// How a withdrawal was confirmed.
#[derive(Debug)]
pub enum WithdrawConfirm {
    Password { verified_hash: String },
    EmailLocalPart(String),
}

/// Why the store refused a withdrawal.
#[derive(Clone, Copy, Debug, PartialEq, Eq, Structural)]
pub enum WithdrawError {
    ConfirmInvalid,
    OwnerTransferRequired,
    LastInstanceAdmin,
    SessionGone,
}

/// A withdrawal that was scheduled.
#[derive(Debug)]
pub struct Scheduled {
    pub email: String,
    pub cancel_token: String,
    pub erase_at: String,
}

/// The answer to a withdrawal.
#[derive(Debug)]
pub struct ErasureScheduleOutput {
    pub ok: bool,
    pub cancel_token: String,
    pub erase_at: String,
    pub mail_sent: bool,
}

/// Reads how a withdrawal is to be confirmed: a password goes before the address, and one of them
/// has to be there.
pub fn withdraw_input(body: WithdrawBody) -> (r: Result<WithdrawAsk, AppError>)
    ensures
        match (body.current_password, body.email_local_part) {
            (Some(p), _) => if p@.len() > 0 {
                r == Ok::<_, AppError>(WithdrawAsk::Password(p))
            } else {
                error::refused_at(r, ProblemCode::InvalidInput, "/"@)
            },
            (None, Some(l)) => if l@.len() > 0 {
                r == Ok::<_, AppError>(WithdrawAsk::EmailLocalPart(l))
            } else {
                error::refused_at(r, ProblemCode::InvalidInput, "/"@)
            },
            (None, None) => error::refused(r, ProblemCode::ConfirmInvalid),
        },
{
    match body.current_password {
        Some(password) => match non_empty(password) {
            Ok(p) => Ok(WithdrawAsk::Password(p)),
            Err(e) => Err(e),
        },
        None => match body.email_local_part {
            Some(local) => match non_empty(local) {
                Ok(l) => Ok(WithdrawAsk::EmailLocalPart(l)),
                Err(e) => Err(e),
            },
            None => Err(AppError::from_code(ProblemCode::ConfirmInvalid)),
        },
    }
}

/// The hash that a password is checked against; without one nothing confirms.
pub fn withdraw_stored_password(stored: Result<Option<String>, DbFailure>) -> (r: Result<
    String,
    AppError,
>)
    ensures
        match stored {
            Err(_) => error::refused(r, ProblemCode::Internal),
            Ok(None) => error::refused(r, ProblemCode::ConfirmInvalid),
            Ok(Some(hash)) => r == Ok::<_, AppError>(hash),
        },
{
    match stored {
        Err(_) => Err(AppError::internal()),
        Ok(None) => Err(AppError::from_code(ProblemCode::ConfirmInvalid)),
        Ok(Some(hash)) => Ok(hash),
    }
}

/// The confirmation by a password that was checked.
pub fn withdraw_confirmed(stored: String, verified: bool) -> (r: Result<WithdrawConfirm, AppError>)
    ensures
        if verified {
            r == Ok::<_, AppError>(WithdrawConfirm::Password { verified_hash: stored })
        } else {
            error::refused(r, ProblemCode::ConfirmInvalid)
        },
{
    if verified {
        Ok(WithdrawConfirm::Password { verified_hash: stored })
    } else {
        Err(AppError::from_code(ProblemCode::ConfirmInvalid))
    }
}

/// The problem that a refused withdrawal ends in.
pub open spec fn withdraw_code(err: WithdrawError) -> ProblemCode {
    match err {
        WithdrawError::ConfirmInvalid => ProblemCode::ConfirmInvalid,
        WithdrawError::OwnerTransferRequired => ProblemCode::OwnerTransferRequired,
        WithdrawError::LastInstanceAdmin => ProblemCode::LastInstanceAdmin,
        WithdrawError::SessionGone => ProblemCode::AuthenticationRequired,
    }
}

/// What the store made of a withdrawal.
pub fn withdrawn(result: Result<Result<Scheduled, WithdrawError>, DbFailure>) -> (r: Result<
    Scheduled,
    AppError,
>)
    ensures
        match result {
            Err(_) => error::refused(r, ProblemCode::Internal),
            Ok(Err(err)) => error::refused(r, withdraw_code(err)),
            Ok(Ok(scheduled)) => r == Ok::<_, AppError>(scheduled),
        },
{
    match result {
        Err(_) => Err(AppError::internal()),
        Ok(Err(err)) => {
            let code = match err {
                WithdrawError::ConfirmInvalid => ProblemCode::ConfirmInvalid,
                WithdrawError::OwnerTransferRequired => ProblemCode::OwnerTransferRequired,
                WithdrawError::LastInstanceAdmin => ProblemCode::LastInstanceAdmin,
                WithdrawError::SessionGone => ProblemCode::AuthenticationRequired,
            };
            Err(AppError::from_code(code))
        },
        Ok(Ok(scheduled)) => Ok(scheduled),
    }
}

/// The address at which a withdrawal is cancelled. The token stands behind `#`, where no server
/// sees it.
pub fn cancel_url(origin: &str, token: &str) -> (r: String)
    ensures
        r@ == text::without_trailing(origin@, '/') + "/cancel-withdraw#token="@ + token@,
{
    join3(trim_end_char(origin, '/'), "/cancel-withdraw#token=", token)
}

/// The answer to a withdrawal: `delivered` is what became of the mail, none where no mail is
/// sent at all. A failed mail does not undo the withdrawal. The session ends.
pub fn withdraw_reply(
    scheduled: Scheduled,
    delivered: Option<bool>,
    settings: &SessionCookie,
    secure: bool,
) -> (r: (ErasureScheduleOutput, Vec<Header>))
    ensures
        r.0.ok,
        r.0.cancel_token == scheduled.cancel_token,
        r.0.erase_at == scheduled.erase_at,
        r.0.mail_sent == (delivered == Some(true)),
        header::header_views(r.1@) == cookie_headers(
            cookie::cookie_text(settings.name@, ""@, 0, secure),
        ),
{
    let cookie = clear_session_cookie(settings, secure);
    let headers = with_cookie(cookie.as_str());
    let mail_sent: bool = match delivered {
        Some(sent) => sent,
        None => false,
    };
    (
        ErasureScheduleOutput {
            ok: true,
            cancel_token: scheduled.cancel_token,
            erase_at: scheduled.erase_at,
            mail_sent,
        },
        headers,
    )
}

/// What became of the cancellation of a withdrawal.
#[derive(Clone, Copy, Debug, PartialEq, Eq, Structural)]
pub enum CancelWithdrawOutcome {
    Cancelled,
    NotFound,
    DeadlinePassed,
}

/// The answer to the cancellation of a withdrawal.
pub fn cancel_withdraw_reply(outcome: Result<CancelWithdrawOutcome, DbFailure>) -> (r: Result<
    OkResponse,
    AppError,
>)
    ensures
        match outcome {
            Err(_) => error::refused(r, ProblemCode::Internal),
            Ok(CancelWithdrawOutcome::Cancelled) => r == Ok::<_, AppError>(OkResponse { ok: true }),
            Ok(_) => error::refused(r, ProblemCode::NotFound),
        },
{
    match outcome {
        Err(_) => Err(AppError::internal()),
        Ok(CancelWithdrawOutcome::Cancelled) => Ok(OkResponse { ok: true }),
        Ok(_) => Err(AppError::from_code(ProblemCode::NotFound)),
    }
}

/// A user who is not withdrawn.
#[derive(Debug)]
pub struct LiveUser {
    pub email: String,
    pub generation: i64,
}

/// What a request for a change of address does: nothing for a user who is gone or an address that
/// any user has, else a token for that user is issued.
pub fn email_change_for(
    user: Result<Option<LiveUser>, DbFailure>,
    taken: Result<bool, DbFailure>,
) -> (r: Result<Option<LiveUser>, AppError>)
    ensures
        match (user, taken) {
            (Err(_), _) => error::refused(r, ProblemCode::Internal),
            (Ok(None), _) => r == Ok::<Option<LiveUser>, AppError>(None),
            (Ok(Some(_)), Err(_)) => error::refused(r, ProblemCode::Internal),
            (Ok(Some(u)), Ok(t)) => r == Ok::<_, AppError>(
                if t {
                    None
                } else {
                    Some(u)
                },
            ),
        },
{
    match user {
        Err(_) => Err(AppError::internal()),
        Ok(None) => Ok(None),
        Ok(Some(u)) => match taken {
            Err(_) => Err(AppError::internal()),
            Ok(true) => Ok(None),
            Ok(false) => Ok(Some(u)),
        },
    }
}

/// What a mail is about.
#[derive(Clone, Copy, Debug, PartialEq, Eq, Structural)]
pub enum MailKind {
    EmailChange,
    EmailChangeRequested,
    EmailChangeCompleted,
    MagicLogin,
    WithdrawCancel,
}

/// A mail to be sent.
#[derive(Debug)]
pub struct Mail {
    pub to: String,
    pub kind: MailKind,
    /// The address that it invites to open.
    pub url: Option<String>,
}

/// The mails about a change of address: the link goes to the new one, word of it to the old one.
pub fn email_change_mails(origin: &str, new_email: String, user: LiveUser, token: &str) -> (r: (
    Mail,
    Mail,
))
    ensures
        r.0.to == new_email,
        r.0.kind == MailKind::EmailChange,
        error::text_view(r.0.url) == Some(link(origin@, "/confirm-email"@, token@)),
        r.1.to == user.email,
        r.1.kind == MailKind::EmailChangeRequested,
        r.1.url is None,
{
    let url = link_url(origin, "/confirm-email", token);
    (
        Mail { to: new_email, kind: MailKind::EmailChange, url: Some(url) },
        Mail { to: user.email, kind: MailKind::EmailChangeRequested, url: None },
    )
}

/// The mail with a link to sign in.
pub fn magic_login_mail(origin: &str, email: String, token: &str) -> (r: Mail)
    ensures
        r.to == email,
        r.kind == MailKind::MagicLogin,
        error::text_view(r.url) == Some(link(origin@, "/magic-link"@, token@)),
{
    let url = link_url(origin, "/magic-link", token);
    Mail { to: email, kind: MailKind::MagicLogin, url: Some(url) }
}

/// The answer to a request for a link by mail. It is the same for every address, known or not.
pub fn mail_accepted() -> (r: (u16, OkResponse))
    ensures
        r == (202u16, OkResponse { ok: true }),
{
    (202, OkResponse { ok: true })
}

/// What a link by mail was good for; one that is used up, expired or unknown is not told from
/// another.
pub fn magic_result<T>(found: Result<Option<T>, DbFailure>) -> (r: Result<T, AppError>)
    ensures
        match found {
            Err(_) => error::refused(r, ProblemCode::Internal),
            Ok(None) => error::refused(r, ProblemCode::MagicInvalid),
            Ok(Some(t)) => r == Ok::<T, AppError>(t),
        },
{
    match found {
        Err(_) => Err(AppError::internal()),
        Ok(None) => Err(AppError::from_code(ProblemCode::MagicInvalid)),
        Ok(Some(t)) => Ok(t),
    }
}

/// The body of a change of password.
#[derive(Debug)]
pub struct PasswordChangeBody {
    pub current_password: Option<String>,
    pub new_password: String,
}

/// What has to be checked before a password is changed.
#[derive(Debug)]
pub enum PasswordCheck {
    /// There is no password yet.
    Nothing,
    Verify { stored: String, current: String },
}

/// Reads the current password of a change: it may be missing, but not empty.
pub fn password_change_input(body: PasswordChangeBody) -> (r: Result<
    (Option<String>, String),
    AppError,
>)
    ensures
        if body.current_password matches Some(p) && p@.len() == 0 {
            error::refused_at(r, ProblemCode::InvalidInput, "/"@)
        } else {
            r == Ok::<_, AppError>((body.current_password, body.new_password))
        },
{
    let current = match body.current_password {
        None => None,
        Some(p) => match non_empty(p) {
            Ok(p) => Some(p),
            Err(e) => {
                return Err(e);
            },
        },
    };
    Ok((current, body.new_password))
}

/// What is checked before a password is changed: a stored one needs the current one.
pub fn password_change_check(
    stored: Result<Option<String>, DbFailure>,
    current: Option<String>,
) -> (r: Result<PasswordCheck, AppError>)
    ensures
        match (stored, current) {
            (Err(_), _) => error::refused(r, ProblemCode::Internal),
            (Ok(None), _) => r == Ok::<_, AppError>(PasswordCheck::Nothing),
            (Ok(Some(_)), None) => error::refused(r, ProblemCode::PasswordInvalid),
            (Ok(Some(s)), Some(c)) => r == Ok::<_, AppError>(
                PasswordCheck::Verify { stored: s, current: c },
            ),
        },
{
    match stored {
        Err(_) => Err(AppError::internal()),
        Ok(None) => Ok(PasswordCheck::Nothing),
        Ok(Some(stored)) => match current {
            None => Err(AppError::from_code(ProblemCode::PasswordInvalid)),
            Some(current) => Ok(PasswordCheck::Verify { stored, current }),
        },
    }
}

/// A current password that was checked.
pub fn password_change_verified(verified: bool) -> (r: Result<(), AppError>)
    ensures
        r is Ok <==> verified,
        r is Err ==> error::refused(r, ProblemCode::PasswordInvalid),
{
    if verified {
        Ok(())
    } else {
        Err(AppError::from_code(ProblemCode::PasswordInvalid))
    }
}

/// The answer to a change of password; the store refuses it where the password changed meanwhile.
pub fn password_changed(changed: Result<bool, DbFailure>) -> (r: Result<OkResponse, AppError>)
    ensures
        match changed {
            Err(_) => error::refused(r, ProblemCode::Internal),
            Ok(false) => error::refused(r, ProblemCode::PasswordInvalid),
            Ok(true) => r == Ok::<_, AppError>(OkResponse { ok: true }),
        },
{
    match changed {
        Err(_) => Err(AppError::internal()),
        Ok(false) => Err(AppError::from_code(ProblemCode::PasswordInvalid)),
        Ok(true) => Ok(OkResponse { ok: true }),
    }
}

/// An id in a query.
pub fn parse_uuid_param(value: &str) -> (r: Result<Uuid, AppError>)
    ensures
        match r {
            Ok(id) => ids::uuid_of(value@) == Some(id.0),
            Err(e) => ids::uuid_of(value@) is None && e@ == error::problem_at(
                ProblemCode::InvalidInput,
                "/"@,
            ),
        },
{
    match Uuid::parse_str(value) {
        Some(id) => Ok(id),
        None => Err(AppError::with_source(ProblemCode::InvalidInput, "/")),
    }
}

/// The workspace that a dashboard starts from.
pub fn last_visited(pairs: &Vec<(String, String)>) -> (r: Result<Option<Uuid>, AppError>)
    ensures
        match query::value_of(query::pair_views(pairs@), "lastVisited"@) {
            None => r == Ok::<Option<Uuid>, AppError>(None),
            Some(v) => match ids::uuid_of(v) {
                Some(id) => r == Ok::<_, AppError>(Some(Uuid(id))),
                None => error::refused_at(r, ProblemCode::InvalidInput, "/"@),
            },
        },
{
    match lookup(pairs, "lastVisited") {
        None => Ok(None),
        Some(v) => match parse_uuid_param(v) {
            Ok(id) => Ok(Some(id)),
            Err(e) => Err(e),
        },
    }
}

/// Something that a user can be led to.
#[derive(Clone, Copy, Debug, PartialEq, Eq, Structural)]
pub enum LocateKind {
    Task,
    Document,
}

/// What a query asks to locate.
pub open spec fn locate_kind(pairs: Seq<(Seq<char>, Seq<char>)>) -> Option<LocateKind> {
    match query::value_of(pairs, "type"@) {
        Some(v) => if v == "task"@ {
            Some(LocateKind::Task)
        } else if v == "document"@ {
            Some(LocateKind::Document)
        } else {
            None
        },
        None => None,
    }
}

/// Reads what a query asks to locate.
pub fn locate_input(pairs: &Vec<(String, String)>) -> (r: Result<(LocateKind, Uuid), AppError>)
    ensures
        ({
            let p = query::pair_views(pairs@);
            match (locate_kind(p), query::value_of(p, "id"@)) {
                (None, _) => error::refused_at(r, ProblemCode::InvalidInput, "/type"@),
                (Some(_), None) => error::refused_at(r, ProblemCode::InvalidInput, "/id"@),
                (Some(kind), Some(id)) => match ids::uuid_of(id) {
                    None => error::refused_at(r, ProblemCode::InvalidInput, "/"@),
                    Some(id) => r == Ok::<_, AppError>((kind, Uuid(id))),
                },
            }
        }),
{
    let kind = match lookup(pairs, "type") {
        None => {
            return Err(AppError::with_source(ProblemCode::InvalidInput, "/type"));
        },
        Some(v) => if same(v, "task") {
            LocateKind::Task
        } else if same(v, "document") {
            LocateKind::Document
        } else {
            return Err(AppError::with_source(ProblemCode::InvalidInput, "/type"));
        },
    };
    let id = match lookup(pairs, "id") {
        None => {
            return Err(AppError::with_source(ProblemCode::InvalidInput, "/id"));
        },
        Some(v) => match parse_uuid_param(v) {
            Ok(id) => id,
            Err(e) => {
                return Err(e);
            },
        },
    };
    Ok((kind, id))
}

/// The session ended while the store was asked.
#[derive(Clone, Copy, Debug, PartialEq, Eq, Structural)]
pub struct SessionGone;

/// The answer to a question where something is: the workspace that holds it.
pub fn located(found: Result<Result<Option<Uuid>, SessionGone>, DbFailure>) -> (r: Result<
    String,
    AppError,
>)
    ensures
        match found {
            Err(_) => error::refused(r, ProblemCode::Internal),
            Ok(Err(_)) => error::refused(r, ProblemCode::AuthenticationRequired),
            Ok(Ok(None)) => error::refused(r, ProblemCode::NotFound),
            Ok(Ok(Some(id))) => r matches Ok(text) && text@ == ids::uuid_text(id.0),
        },
{
    match found {
        Err(_) => Err(AppError::internal()),
        Ok(Err(_)) => Err(AppError::from_code(ProblemCode::AuthenticationRequired)),
        Ok(Ok(None)) => Err(AppError::from_code(ProblemCode::NotFound)),
        Ok(Ok(Some(id))) => Ok(id.text()),
    }
}

/// A link is the same whether the origin ends with slashes or not, and two links of one kind are
/// the same only where their tokens are.
pub proof fn law_link_carries_its_token(
    origin: Seq<char>,
    path: Seq<char>,
    a: Seq<char>,
    b: Seq<char>,
)
    ensures
        link(origin.push('/'), path, a) == link(origin, path, a),
        link(origin, path, a) == link(origin, path, b) <==> a == b,
        text::ends(link(origin, path, a), "?token="@ + a),
{
    assert(origin.push('/').drop_last() =~= origin);
    let front = text::without_trailing(origin, '/') + path + "?token="@;
    let s = front + a;
    let t = front + b;
    assert(s.subrange(front.len() as int, s.len() as int) =~= a);
    assert(t.subrange(front.len() as int, t.len() as int) =~= b);
    let tail = "?token="@ + a;
    assert(s.subrange(s.len() - tail.len(), s.len() as int) =~= tail);
}

/// Users do not share a limit: at one address, two users have keys of their own.
pub proof fn law_users_have_keys_of_their_own(prefix: Seq<char>, ip: Seq<char>, a: Uuid, b: Uuid)
    ensures
        account_key(prefix, ip, a) == account_key(prefix, ip, b) <==> a == b,
{
    let front = prefix + ip + ":"@;
    let s = account_key(prefix, ip, a);
    let t = account_key(prefix, ip, b);
    assert(s.subrange(front.len() as int, s.len() as int) =~= ids::uuid_text(a.0));
    assert(t.subrange(front.len() as int, t.len() as int) =~= ids::uuid_text(b.0));
    ids::law_uuid_texts_are_apart(a.0, b.0);
}

/// An account is withdrawn by what was given: by a password where there is one, else by the part of
/// the address, and never by an empty text.
pub proof fn law_withdrawal_is_confirmed_by_what_was_given(
    body: WithdrawBody,
    r: Result<WithdrawAsk, AppError>,
)
    requires
        call_ensures(withdraw_input, (body,), r),
    ensures
        match r {
            Ok(WithdrawAsk::Password(p)) => body.current_password == Some(p) && p@.len() > 0,
            Ok(WithdrawAsk::EmailLocalPart(l)) => body.current_password is None
                && body.email_local_part == Some(l) && l@.len() > 0,
            Err(_) => match (body.current_password, body.email_local_part) {
                (Some(p), _) => p@.len() == 0,
                (None, Some(l)) => l@.len() == 0,
                (None, None) => true,
            },
        },
{
}

/// What is located is of the kind and has the id that the query names.
pub proof fn law_located_is_what_was_named(
    pairs: &Vec<(String, String)>,
    r: Result<(LocateKind, Uuid), AppError>,
)
    requires
        call_ensures(locate_input, (pairs,), r),
    ensures
        r matches Ok((kind, id)) ==> {
            let p = query::pair_views(pairs@);
            &&& kind == LocateKind::Task <==> query::value_of(p, "type"@) == Some("task"@)
            &&& kind == LocateKind::Document <==> query::value_of(p, "type"@) == Some("document"@)
            &&& query::value_of(p, "id"@) is Some
            &&& ids::uuid_of(query::value_of(p, "id"@)->0) == Some(id.0)
        },
{
    reveal_strlit("task");
    reveal_strlit("document");
    assert("task"@.len() != "document"@.len());
}

/// What one address is told by this limit does not depend on the requests of another: `cancel_withdraw_limit`
/// answers `b` alike behind a request of `a` and without it.
pub proof fn law_cancel_withdraw_limit_is_one_for_each_address(
    first: &mut RateLimiter,
    second: &mut RateLimiter,
    alone: &mut RateLimiter,
    a: &str,
    b: &str,
    now: u64,
    later: u64,
    told_a: Result<(), AppError>,
    told_b: Result<(), AppError>,
    told_alone: Result<(), AppError>,
)
    requires
        first.wf(),
        second.wf(),
        alone.wf(),
        a@ != b@,
        old(first)@.dom().len() < rate_limit::MAX_KEYS,
        old(second)@ == final(first)@,
        old(alone)@ == old(first)@,
        call_ensures(cancel_withdraw_limit, (first, a, now), told_a),
        call_ensures(cancel_withdraw_limit, (second, b, later), told_b),
        call_ensures(cancel_withdraw_limit, (alone, b, later), told_alone),
    ensures
        told_b is Ok <==> told_alone is Ok,
        error::told(told_b) == error::told(told_alone),
{
    rate_limit::lemma_keys_apart("cancel-withdraw-ip:"@, a@, b@);
    rate_limit::lemma_other_keys_stay(
        old(first)@,
        final(first)@,
        "cancel-withdraw-ip:"@ + a@,
        CANCEL_WITHDRAW_PER_IP,
        WINDOW,
        now,
        "cancel-withdraw-ip:"@ + b@,
    );
}

/// What one address is told by this limit does not depend on the requests of another: `magic_ip_limit`
/// answers `b` alike behind a request of `a` and without it.
pub proof fn law_magic_ip_limit_is_one_for_each_address(
    first: &mut RateLimiter,
    second: &mut RateLimiter,
    alone: &mut RateLimiter,
    a: &str,
    b: &str,
    per_ip: u32,
    now: u64,
    later: u64,
    told_a: Result<(), AppError>,
    told_b: Result<(), AppError>,
    told_alone: Result<(), AppError>,
)
    requires
        first.wf(),
        second.wf(),
        alone.wf(),
        a@ != b@,
        old(first)@.dom().len() < rate_limit::MAX_KEYS,
        old(second)@ == final(first)@,
        old(alone)@ == old(first)@,
        call_ensures(magic_ip_limit, (first, a, per_ip, now), told_a),
        call_ensures(magic_ip_limit, (second, b, per_ip, later), told_b),
        call_ensures(magic_ip_limit, (alone, b, per_ip, later), told_alone),
    ensures
        told_b is Ok <==> told_alone is Ok,
        error::told(told_b) == error::told(told_alone),
{
    rate_limit::lemma_keys_apart("magic-ip:"@, a@, b@);
    rate_limit::lemma_other_keys_stay(
        old(first)@,
        final(first)@,
        "magic-ip:"@ + a@,
        per_ip,
        WINDOW,
        now,
        "magic-ip:"@ + b@,
    );
}

/// An address is changed for a user who is there, and to one that is not taken; which of both
/// failed is not told.
pub proof fn law_email_change_does_not_tell_who_is_there(
    user: Option<LiveUser>,
    taken: bool,
    r: Result<Option<LiveUser>, AppError>,
)
    requires
        call_ensures(email_change_for, (Ok(user), Ok(taken)), r),
    ensures
        r is Ok,
        r->Ok_0 is Some <==> user is Some && !taken,
        r->Ok_0 is Some ==> r->Ok_0 == user,
{
}

/// Links that are asked for one address do not count against another at the same place.
pub proof fn law_magic_email_limit_is_one_for_each_address(
    first: &mut RateLimiter,
    second: &mut RateLimiter,
    alone: &mut RateLimiter,
    ip: &str,
    a: &str,
    b: &str,
    per_email: u32,
    now: u64,
    later: u64,
    told_a: Result<(), AppError>,
    told_b: Result<(), AppError>,
    told_alone: Result<(), AppError>,
)
    requires
        first.wf(),
        second.wf(),
        alone.wf(),
        a@ != b@,
        old(first)@.dom().len() < rate_limit::MAX_KEYS,
        old(second)@ == final(first)@,
        old(alone)@ == old(first)@,
        call_ensures(magic_email_limit, (first, ip, a, per_email, now), told_a),
        call_ensures(magic_email_limit, (second, ip, b, per_email, later), told_b),
        call_ensures(magic_email_limit, (alone, ip, b, per_email, later), told_alone),
    ensures
        error::told(told_b) == error::told(told_alone),
{
    let front = "magic-email:"@ + ip@ + ":"@;
    rate_limit::lemma_keys_apart(front, a@, b@);
    rate_limit::lemma_other_keys_stay(
        old(first)@,
        final(first)@,
        front + a@,
        per_email,
        WINDOW,
        now,
        front + b@,
    );
}

/// One whose withdrawal was scheduled is told when they are erased and how to take it back, and
/// their session ends.
pub proof fn law_withdrawal_tells_how_to_take_it_back(
    scheduled: Scheduled,
    delivered: Option<bool>,
    settings: &SessionCookie,
    secure: bool,
    r: (ErasureScheduleOutput, Vec<Header>),
)
    requires
        call_ensures(withdraw_reply, (scheduled, delivered, settings, secure), r),
        header::sendable(settings.name@),
    ensures
        r.0.cancel_token == scheduled.cancel_token,
        r.0.erase_at == scheduled.erase_at,
        r.0.mail_sent <==> delivered == Some(true),
        header::header_views(r.1@) == seq![
            ("set-cookie"@, cookie::cookie_text(settings.name@, ""@, 0, secure)),
        ],
{
    reveal_strlit("");
    cookie::law_cookie_is_sendable(settings.name@, ""@, 0, secure);
}

/// The reasons why an account is not withdrawn are told apart.
pub proof fn law_refusals_of_withdrawal_are_told_apart(a: WithdrawError, b: WithdrawError)
    ensures
        withdraw_code(a) == withdraw_code(b) <==> a == b,
        a is SessionGone <==> withdraw_code(a) == ProblemCode::AuthenticationRequired,
{
}

/// A withdrawal passes exactly where both its address and its account have tried few times of late.
pub proof fn law_withdraw_limits_have_to_let_pass(
    limiter: &mut RateLimiter,
    ip: &str,
    auth: &RequestAuth,
    now: u64,
    r: Result<(), AppError>,
)
    requires
        limiter.wf(),
        old(limiter)@.dom().finite(),
        old(limiter)@.dom().len() < rate_limit::MAX_KEYS - 1,
        call_ensures(withdraw_limits, (limiter, ip, auth, now), r),
    ensures
        r is Ok <==> rate_limit::live(
            rate_limit::grants_of(old(limiter)@, "withdraw-ip:"@ + ip@),
            now,
            WINDOW,
        ).len() < WITHDRAW_PER_IP && rate_limit::live(
            rate_limit::grants_of(old(limiter)@, account_key("withdraw-account:"@, ip@, auth.user_id)),
            now,
            WINDOW,
        ).len() < WITHDRAW_PER_ACCOUNT,
{
    reveal_strlit("withdraw-ip:");
    reveal_strlit("withdraw-account:");
    let first = "withdraw-ip:"@ + ip@;
    let second = account_key("withdraw-account:"@, ip@, auth.user_id);
    let at = 9int;
    assert(first[at] == "withdraw-ip:"@[at] && second[at] == "withdraw-account:"@[at]);
    assert(first != second);
}

/// A password is changed exactly where both its address and its account have tried few times of late.
pub proof fn law_password_change_limits_have_to_let_pass(
    limiter: &mut RateLimiter,
    ip: &str,
    auth: &RequestAuth,
    now: u64,
    r: Result<(), AppError>,
)
    requires
        limiter.wf(),
        old(limiter)@.dom().finite(),
        old(limiter)@.dom().len() < rate_limit::MAX_KEYS - 1,
        call_ensures(password_change_limits, (limiter, ip, auth, now), r),
    ensures
        r is Ok <==> rate_limit::live(
            rate_limit::grants_of(old(limiter)@, "password-change-ip:"@ + ip@),
            now,
            WINDOW,
        ).len() < PASSWORD_CHANGE_PER_IP && rate_limit::live(
            rate_limit::grants_of(old(limiter)@, account_key("password-change-account:"@, ip@, auth.user_id)),
            now,
            WINDOW,
        ).len() < PASSWORD_CHANGE_PER_ACCOUNT,
{
    reveal_strlit("password-change-ip:");
    reveal_strlit("password-change-account:");
    let first = "password-change-ip:"@ + ip@;
    let second = account_key("password-change-account:"@, ip@, auth.user_id);
    let at = 16int;
    assert(first[at] == "password-change-ip:"@[at] && second[at] == "password-change-account:"@[at]);
    assert(first != second);
}

} // verus!
