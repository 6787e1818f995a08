//! Signing in at another provider, and the providers of workspaces.

use vstd::prelude::*;
use vstd::string::*;
use crate::authz::SessionUser;
use crate::cookie;
use crate::cookie::{SessionCookie, set_session_cookie, write_cookie};
use crate::error;
use crate::error::{AppError, DbFailure, ProblemCode};
use crate::header;
use crate::header::{Header, no_headers, put_sendable};
use crate::ids;
use crate::ids::Uuid;
use crate::query;
use crate::query::{lookup, parse_form};
use crate::rate_limit;
use crate::rate_limit::{RateLimiter, WINDOW, charge};
use crate::routes::account::OkResponse;
use crate::text;
use crate::text::{join2, join3, join4, same, trim, trim_end_char};
use crate::time::Timestamp;

verus! {

pub const OIDC_PER_IP: u32 = 30;

/// The most characters of an issuer, a client's id and secret, and a label.
pub const ISSUER_MAX: usize = 2048;

pub const CLIENT_ID_MAX: usize = 256;

pub const CLIENT_SECRET_MAX: usize = 4096;

pub const LABEL_MAX: usize = 100;

/// Charges a request of a sign-in to its address in the network.
pub fn limit_ip(limiter: &mut RateLimiter, ip: &str, now: u64) -> (r: Result<(), AppError>)
    requires
        old(limiter).wf(),
    ensures
        final(limiter).wf(),
        rate_limit::charged_once(
            old(limiter)@,
            final(limiter)@,
            "oidc-ip:"@ + ip@,
            OIDC_PER_IP,
            WINDOW,
            now,
            error::told(r),
        ),
{
    let key = join2("oidc-ip:", ip);
    charge(limiter, key.as_str(), OIDC_PER_IP, WINDOW, now)
}

/// The provider that a path names, where it is known.
pub fn provider_param<P>(known: Option<P>) -> (r: Result<P, AppError>)
    ensures
        match known {
            Some(p) => r == Ok::<P, AppError>(p),
            None => error::refused_at(r, ProblemCode::InvalidInput, "/provider"@),
        },
{
    match known {
        Some(p) => Ok(p),
        None => Err(AppError::with_source(ProblemCode::InvalidInput, "/provider")),
    }
}

/// The id under a key of a query, where there is one.
pub fn uuid_query(pairs: &Vec<(String, String)>, key: &str) -> (r: Result<Option<Uuid>, AppError>)
    ensures
        match query::value_of(query::pair_views(pairs@), key@) {
            None => r == Ok::<Option<Uuid>, AppError>(None),
            Some(v) => match ids::uuid_of(v) {
                Some(id) => r == Ok::<_, AppError>(Some(Uuid(id))),
                None => error::refused_at(r, ProblemCode::InvalidInput, "/"@),
            },
        },
{
    match lookup(pairs, key) {
        None => Ok(None),
        Some(v) => match Uuid::parse_str(v) {
            Some(id) => Ok(Some(id)),
            None => Err(AppError::with_source(ProblemCode::InvalidInput, "/")),
        },
    }
}

/// The consents that a query carries. `read` is none where it carries some that cannot be read.
pub fn parse_consents(present: bool, read: Option<Vec<(String, i32)>>) -> (r: Result<
    Vec<(String, i32)>,
    AppError,
>)
    ensures
        if !present {
            r matches Ok(v) && v@.len() == 0
        } else {
            match read {
                Some(items) => r == Ok::<_, AppError>(items),
                None => error::refused(r, ProblemCode::InvalidConsentsQuery),
            }
        },
{
    if !present {
        return Ok(Vec::new());
    }
    match read {
        Some(items) => Ok(items),
        None => Err(AppError::from_code(ProblemCode::InvalidConsentsQuery)),
    }
}

/// Why a sign-in did not begin.
#[derive(Clone, Copy, Debug, PartialEq, Eq, Structural)]
pub enum BeginError {
    NotConfigured,
    Unavailable,
    Provider,
    Db,
}

/// The problem that a sign-in that did not begin ends in.
pub open spec fn begin_code(err: BeginError) -> ProblemCode {
    match err {
        BeginError::NotConfigured => ProblemCode::ProviderNotConfigured,
        BeginError::Unavailable => ProblemCode::EncryptionUnavailable,
        BeginError::Provider => ProblemCode::Internal,
        BeginError::Db => ProblemCode::Internal,
    }
}

pub fn begin_error(err: BeginError) -> (r: AppError)
    ensures
        r@ == error::problem(begin_code(err)),
{
    match err {
        BeginError::NotConfigured => AppError::from_code(ProblemCode::ProviderNotConfigured),
        BeginError::Unavailable => AppError::from_code(ProblemCode::EncryptionUnavailable),
        BeginError::Provider => AppError::internal(),
        BeginError::Db => AppError::internal(),
    }
}

/// How the state of a sign-in is kept in a browser.
#[derive(Debug)]
pub struct StateCookie {
    pub name: String,
    /// Seconds that a sign-in may take.
    pub ttl_secs: i64,
}

/// The cookie that carries the state of a sign-in.
pub fn state_cookie(settings: &StateCookie, secure: bool, value: &str, max_age: i64) -> (r: String)
    ensures
        r@ == cookie::cookie_text(settings.name@, value@, max_age as int, secure),
{
    write_cookie(settings.name.as_str(), value, max_age, secure)
}

/// A sign-in that began.
#[derive(Debug)]
pub struct Started {
    pub authorization_url: String,
    pub signed_state: String,
}

/// The headers that send a browser to the provider, with the state of the sign-in.
pub open spec fn start_headers(started: Started, settings: StateCookie, secure: bool) -> Seq<
    (Seq<char>, Seq<char>),
> {
    header::with_header(
        header::with_header(Seq::empty(), "location"@, started.authorization_url@),
        "set-cookie"@,
        cookie::cookie_text(
            settings.name@,
            started.signed_state@,
            settings.ttl_secs as int,
            secure,
        ),
    )
}

/// The answer to a sign-in that began, or did not.
pub fn state_redirect(
    started: Result<Started, BeginError>,
    settings: &StateCookie,
    secure: bool,
) -> (r: Result<Vec<Header>, AppError>)
    ensures
        match started {
            Err(err) => error::refused(r, begin_code(err)),
            Ok(s) => r matches Ok(headers) && header::header_views(headers@) == start_headers(
                s,
                *settings,
                secure,
            ),
        },
{
    match started {
        Err(err) => Err(begin_error(err)),
        Ok(s) => {
            let mut headers = no_headers();
            put_sendable(&mut headers, "location", s.authorization_url.as_str());
            let cookie = state_cookie(settings, secure, s.signed_state.as_str(), settings.ttl_secs);
            put_sendable(&mut headers, "set-cookie", cookie.as_str());
            Ok(headers)
        },
    }
}

/// The name of the workspace that a query wants to sign in to, without white space around it.
pub fn slug_query(pairs: &Vec<(String, String)>) -> (r: Result<String, AppError>)
    ensures
        match query::value_of(query::pair_views(pairs@), "slug"@) {
            None => error::refused_at(r, ProblemCode::InvalidInput, "/slug"@),
            Some(v) => r matches Ok(slug) && slug@ == text::trimmed(v),
        },
{
    match lookup(pairs, "slug") {
        None => Err(AppError::with_source(ProblemCode::InvalidInput, "/slug")),
        Some(v) => Ok(trim(v).to_owned()),
    }
}

/// The workspace with a provider that a name stands for.
pub fn sso_workspace(found: Result<Option<Uuid>, DbFailure>) -> (r: Result<Uuid, AppError>)
    ensures
        match found {
            Err(_) => error::refused(r, ProblemCode::Internal),
            Ok(None) => error::refused(r, ProblemCode::ProviderNotConfigured),
            Ok(Some(id)) => r == Ok::<_, AppError>(id),
        },
{
    match found {
        Err(_) => Err(AppError::internal()),
        Ok(None) => Err(AppError::from_code(ProblemCode::ProviderNotConfigured)),
        Ok(Some(id)) => Ok(id),
    }
}

/// What a sign-in is for.
#[derive(Clone, Copy, Debug, PartialEq, Eq, Structural)]
pub enum Mode {
    Login,
    Invite,
    Link,
}

/// What a sign-in begins with.
#[derive(Debug)]
pub struct BeginInput {
    pub mode: Mode,
    pub invitation_token: Option<String>,
    /// Who links an identity.
    pub user_id: Option<Uuid>,
    pub consents: Vec<(String, i32)>,
    pub workspace_id: Option<Uuid>,
}

/// What a sign-in at the provider of a workspace begins with.
pub fn sso_input(workspace_id: Uuid) -> (r: BeginInput)
    ensures
        r.mode == Mode::Login,
        r.invitation_token is None,
        r.user_id is None,
        r.consents@.len() == 0,
        r.workspace_id == Some(workspace_id),
{
    BeginInput {
        mode: Mode::Login,
        invitation_token: None,
        user_id: None,
        consents: Vec::new(),
        workspace_id: Some(workspace_id),
    }
}

/// Reads what the linking of an identity begins with.
pub fn link_input(pairs: &Vec<(String, String)>, user_id: Uuid) -> (r: Result<BeginInput, AppError>)
    ensures
        ({
            let workspace = query::value_of(query::pair_views(pairs@), "workspaceId"@);
            if workspace matches Some(w) && ids::uuid_of(w) is None {
                error::refused_at(r, ProblemCode::InvalidInput, "/"@)
            } else {
                r matches Ok(input) && {
                    &&& input.mode == Mode::Link
                    &&& input.invitation_token is None
                    &&& input.user_id == Some(user_id)
                    &&& input.consents@.len() == 0
                    &&& input.workspace_id == match workspace {
                        Some(w) => ids::some_uuid(ids::uuid_of(w)),
                        None => None,
                    }
                }
            }
        }),
{
    let workspace_id = match uuid_query(pairs, "workspaceId") {
        Err(e) => {
            return Err(e);
        },
        Ok(w) => w,
    };
    Ok(
        BeginInput {
            mode: Mode::Link,
            invitation_token: None,
            user_id: Some(user_id),
            consents: Vec::new(),
            workspace_id,
        },
    )
}

/// Reads what a sign-in begins with: an invitation, which is not empty, makes it one for an
/// invitation.
pub fn start_input(
    pairs: &Vec<(String, String)>,
    consents: Option<Vec<(String, i32)>>,
) -> (r: Result<BeginInput, AppError>)
    ensures
        ({
            let p = query::pair_views(pairs@);
            let invitation = query::value_of(p, "invitation"@);
            let workspace = query::value_of(p, "workspaceId"@);
            if invitation matches Some(i) && i.len() == 0 {
                error::refused_at(r, ProblemCode::InvalidInput, "/invitation"@)
            } else if query::value_of(p, "consents"@) is Some && consents is None {
                error::refused(r, ProblemCode::InvalidConsentsQuery)
            } else if workspace matches Some(w) && ids::uuid_of(w) is None {
                error::refused_at(r, ProblemCode::InvalidInput, "/"@)
            } else {
                r matches Ok(input) && {
                    &&& error::text_view(input.invitation_token) == invitation
                    &&& input.user_id is None
                    &&& input.mode == if invitation is Some {
                        Mode::Invite
                    } else {
                        Mode::Login
                    }
                    &&& input.consents@ == if query::value_of(p, "consents"@) is Some {
                        consents->0@
                    } else {
                        Seq::empty()
                    }
                    &&& input.workspace_id == match workspace {
                        Some(w) => ids::some_uuid(ids::uuid_of(w)),
                        None => None,
                    }
                }
            }
        }),
{
    let invitation = match lookup(pairs, "invitation") {
        None => None,
        Some(i) => {
            if i.unicode_len() == 0 {
                return Err(AppError::with_source(ProblemCode::InvalidInput, "/invitation"));
            }
            Some(i.to_owned())
        },
    };
    let present: bool = lookup(pairs, "consents").is_some();
    let consents = match parse_consents(present, consents) {
        Err(e) => {
            return Err(e);
        },
        Ok(c) => c,
    };
    assert(!present ==> consents@ == Seq::<(String, i32)>::empty());
    let workspace_id = match uuid_query(pairs, "workspaceId") {
        Err(e) => {
            return Err(e);
        },
        Ok(w) => w,
    };
    let mode = if invitation.is_some() {
        Mode::Invite
    } else {
        Mode::Login
    };
    Ok(BeginInput { mode, invitation_token: invitation, user_id: None, consents, workspace_id })
}

/// The pairs with the first value of each key only.
pub open spec fn first_of_each(
    pairs: Seq<(Seq<char>, Seq<char>)>,
) -> Seq<(Seq<char>, Seq<char>)>
    decreases pairs.len(),
{
    if pairs.len() == 0 {
        pairs
    } else {
        let before = first_of_each(pairs.drop_last());
        if query::value_of(before, pairs.last().0) is None {
            before.push(pairs.last())
        } else {
            before
        }
    }
}

/// Keeps the first value of each key.
pub fn keep_first(pairs: Vec<(String, String)>) -> (r: Vec<(String, String)>)
    ensures
        query::pair_views(r@) == first_of_each(query::pair_views(pairs@)),
{
    let ghost all = query::pair_views(pairs@);
    let mut out: Vec<(String, String)> = Vec::new();
    let mut i: usize = 0;
    assert(query::pair_views(out@) == first_of_each(all.subrange(0, 0)));
    while i < pairs.len()
        invariant
            i <= pairs@.len(),
            all == query::pair_views(pairs@),
            query::pair_views(out@) == first_of_each(all.subrange(0, i as int)),
        decreases pairs.len() - i,
    {
        proof {
            let next = all.subrange(0, i + 1);
            assert(next.drop_last() == all.subrange(0, i as int));
            assert(next.last() == (pairs@[i as int].0@, pairs@[i as int].1@));
        }
        if lookup(&out, pairs[i].0.as_str()).is_none() {
            let ghost before = out@;
            let pair = (pairs[i].0.clone(), pairs[i].1.clone());
            out.push(pair);
            assert(query::pair_views(out@) == query::pair_views(before).push((pair.0@, pair.1@)));
        }
        i = i + 1;
    }
    assert(all.subrange(0, i as int) == all);
    out
}

/// The parameters that a provider sends a browser back with; of a key that comes twice the first
/// value counts.
pub fn callback_query(raw: Option<&str>) -> (r: Vec<(String, String)>)
    ensures
        query::pair_views(r@) == first_of_each(query::form_pairs(query::query_bytes(raw))),
{
    let pairs = match raw {
        Some(s) => parse_form(s.as_bytes()),
        None => {
            let none: Vec<u8> = Vec::new();
            assert(none@ == Seq::<u8>::empty());
            parse_form(none.as_slice())
        },
    };
    keep_first(pairs)
}

/// Who came back from a provider and what is set for new users: a session that is gone, or whose
/// user cannot be read, counts as none. `session` is missing where no cookie was sent.
pub fn callback_ready<T>(
    session: Option<Result<Option<SessionUser>, DbFailure>>,
    settings: Result<T, DbFailure>,
) -> (r: Result<(Option<Uuid>, T), AppError>)
    ensures
        match (session, settings) {
            (Some(Err(_)), _) => error::refused(r, ProblemCode::Internal),
            (_, Err(_)) => error::refused(r, ProblemCode::Internal),
            (Some(Ok(Some(user))), Ok(t)) => r == Ok::<_, AppError>(
                (ids::some_uuid(ids::uuid_of(user.user_id@)), t),
            ),
            (_, Ok(t)) => r == Ok::<_, AppError>((None::<Uuid>, t)),
        },
{
    let user_id = match session {
        Some(Err(_)) => return Err(AppError::internal()),
        Some(Ok(Some(user))) => Uuid::parse_str(user.user_id.as_str()),
        _ => None,
    };
    match settings {
        Err(_) => Err(AppError::internal()),
        Ok(t) => Ok((user_id, t)),
    }
}

/// How a sign-in ended.
#[derive(Debug)]
pub enum OidcResult {
    Session { token: String },
    /// A second factor is still missing.
    Mfa { mfa_token: String },
    Linked,
    Error { code: String, mode: Option<Mode> },
    SeatLimit,
}

/// The answer to a browser that comes back from a provider.
#[derive(Debug)]
pub enum CallbackReply {
    Redirect { headers: Vec<Header> },
    Refused { problem: AppError, headers: Vec<Header> },
}

/// The contents of a `CallbackReply`.
pub enum CallbackView {
    Redirect { headers: Seq<(Seq<char>, Seq<char>)> },
    Refused { problem: error::ErrorView, headers: Seq<(Seq<char>, Seq<char>)> },
}

impl View for CallbackReply {
    type V = CallbackView;

    open spec fn view(&self) -> CallbackView {
        match self {
            CallbackReply::Redirect { headers } => CallbackView::Redirect {
                headers: header::header_views(headers@),
            },
            CallbackReply::Refused { problem, headers } => CallbackView::Refused {
                problem: problem@,
                headers: header::header_views(headers@),
            },
        }
    }
}

/// Where a browser goes on after a sign-in. The token of a missing second factor stands behind
/// `#`, where no server sees it.
pub open spec fn callback_location(
    origin: Seq<char>,
    result: Result<OidcResult, DbFailure>,
) -> Seq<char> {
    let base = text::without_trailing(origin, '/');
    match result {
        Ok(OidcResult::Session { .. }) => base + "/"@,
        Ok(OidcResult::Mfa { mfa_token }) => base + "/login#mfa="@ + mfa_token@,
        Ok(OidcResult::Linked) => base + "/settings/account?linked=1"@,
        Ok(OidcResult::Error { code, mode }) => base + (if mode == Some(Mode::Link) {
            "/settings/account"@
        } else {
            "/login"@
        }) + "?error="@ + code@,
        _ => base + "/login?error=oidc_provider_error"@,
    }
}

/// The cookie that makes a browser forget the state of a sign-in.
pub open spec fn forget_state(settings: StateCookie, secure: bool) -> Seq<char> {
    cookie::cookie_text(settings.name@, ""@, 0, secure)
}

/// The answer to a browser that comes back from a provider: the state of the sign-in is forgotten
/// in any case, and a session is handed out where the sign-in gave one.
pub open spec fn callback_view(
    origin: Seq<char>,
    result: Result<OidcResult, DbFailure>,
    state: StateCookie,
    session: SessionCookie,
    secure: bool,
) -> CallbackView {
    if result matches Ok(OidcResult::SeatLimit) {
        CallbackView::Refused {
            problem: error::problem(ProblemCode::LimitSeats),
            headers: header::with_header(Seq::empty(), "set-cookie"@, forget_state(state, secure)),
        }
    } else {
        let base = header::with_header(
            header::with_header(Seq::empty(), "location"@, callback_location(origin, result)),
            "set-cookie"@,
            forget_state(state, secure),
        );
        CallbackView::Redirect {
            headers: match result {
                Ok(OidcResult::Session { token }) => header::with_header(
                    base,
                    "set-cookie"@,
                    cookie::cookie_text(session.name@, token@, session.ttl_secs as int, secure),
                ),
                _ => base,
            },
        }
    }
}

/// The answer to a browser that comes back from a provider.
pub fn callback_reply(
    origin: &str,
    result: Result<OidcResult, DbFailure>,
    state: &StateCookie,
    session: &SessionCookie,
    secure: bool,
) -> (r: CallbackReply)
    ensures
        r@ == callback_view(origin@, result, *state, *session, secure),
{
    let base = trim_end_char(origin, '/');
    let clear = state_cookie(state, secure, "", 0);
    let mut headers = no_headers();
    let mut token: Option<String> = None;
    let location: String = match result {
        Ok(OidcResult::Session { token: t }) => {
            token = Some(t);
            join2(base, "/")
        },
        Ok(OidcResult::Mfa { mfa_token }) => join3(base, "/login#mfa=", mfa_token.as_str()),
        Ok(OidcResult::Linked) => join2(base, "/settings/account?linked=1"),
        Ok(OidcResult::Error { code, mode }) => {
            let linking: bool = match mode {
                Some(m) => m == Mode::Link,
                None => false,
            };
            let path = if linking {
                "/settings/account"
            } else {
                "/login"
            };
            join4(base, path, "?error=", code.as_str())
        },
        Ok(OidcResult::SeatLimit) => {
            put_sendable(&mut headers, "set-cookie", clear.as_str());
            return CallbackReply::Refused {
                problem: AppError::from_code(ProblemCode::LimitSeats),
                headers,
            };
        },
        Err(_) => join2(base, "/login?error=oidc_provider_error"),
    };
    put_sendable(&mut headers, "location", location.as_str());
    put_sendable(&mut headers, "set-cookie", clear.as_str());
    if let Some(t) = token {
        let cookie = set_session_cookie(session, secure, t.as_str());
        put_sendable(&mut headers, "set-cookie", cookie.as_str());
    }
    CallbackReply::Redirect { headers }
}

/// A provider as it is offered.
#[derive(Debug)]
pub struct ProviderOutput {
    pub provider: String,
    pub label: String,
}

/// The ways to sign in that are offered.
#[derive(Debug)]
pub struct ProvidersOutput {
    pub providers: Vec<ProviderOutput>,
    pub magic_link: bool,
    pub workspace_sso: bool,
}

/// The ways to sign in. Providers of workspaces need keys to keep their secrets with; `any` is
/// whether there is one.
pub fn providers_reply(
    providers: Vec<ProviderOutput>,
    mail: bool,
    keys: bool,
    any: Result<bool, DbFailure>,
) -> (r: Result<ProvidersOutput, AppError>)
    ensures
        if keys && any is Err {
            error::refused(r, ProblemCode::Internal)
        } else {
            r == Ok::<_, AppError>(
                ProvidersOutput {
                    providers,
                    magic_link: mail,
                    workspace_sso: keys && any == Ok::<_, DbFailure>(true),
                },
            )
        },
{
    let workspace_sso: bool = if keys {
        match any {
            Err(_) => {
                return Err(AppError::internal());
            },
            Ok(any) => any,
        }
    } else {
        false
    };
    Ok(ProvidersOutput { providers, magic_link: mail, workspace_sso })
}

/// An account at a provider as it is answered.
#[derive(Debug)]
pub struct IdentityOutput {
    pub provider: String,
    pub email: Option<String>,
    pub created_at: Timestamp,
}

/// The answer with the accounts at providers.
pub fn identities_reply(links: Result<Vec<IdentityOutput>, DbFailure>) -> (r: Result<
    Vec<IdentityOutput>,
    AppError,
>)
    ensures
        match links {
            Err(_) => error::refused(r, ProblemCode::Internal),
            Ok(items) => r == Ok::<_, AppError>(items),
        },
{
    match links {
        Err(_) => Err(AppError::internal()),
        Ok(items) => Ok(items),
    }
}

/// What became of a request to give up an account at a provider.
#[derive(Clone, Copy, Debug, PartialEq, Eq, Structural)]
pub enum UnlinkOutcome {
    Unlinked,
    NotFound,
    /// It is the last way to sign in.
    LastMethod,
    SessionGone,
}

pub fn unlink_reply(outcome: Result<UnlinkOutcome, DbFailure>) -> (r: Result<OkResponse, AppError>)
    ensures
        match outcome {
            Err(_) => error::refused(r, ProblemCode::Internal),
            Ok(UnlinkOutcome::Unlinked) => r == Ok::<_, AppError>(OkResponse { ok: true }),
            Ok(UnlinkOutcome::NotFound) => error::refused(r, ProblemCode::IdentityLinkNotFound),
            Ok(UnlinkOutcome::LastMethod) => error::refused(r, ProblemCode::OidcLastMethod),
            Ok(UnlinkOutcome::SessionGone) => error::refused(
                r,
                ProblemCode::AuthenticationRequired,
            ),
        },
{
    match outcome {
        Err(_) => Err(AppError::internal()),
        Ok(UnlinkOutcome::Unlinked) => Ok(OkResponse { ok: true }),
        Ok(UnlinkOutcome::NotFound) => Err(AppError::from_code(ProblemCode::IdentityLinkNotFound)),
        Ok(UnlinkOutcome::LastMethod) => Err(AppError::from_code(ProblemCode::OidcLastMethod)),
        Ok(UnlinkOutcome::SessionGone) => Err(
            AppError::from_code(ProblemCode::AuthenticationRequired),
        ),
    }
}

/// Why the store refused something about the provider of a workspace.
#[derive(Clone, Copy, Debug, PartialEq, Eq, Structural)]
pub enum ManageError {
    NotFound,
    Forbidden,
    SessionGone,
}

/// The problem that such a refusal ends in.
pub open spec fn manage_code(err: ManageError) -> ProblemCode {
    match err {
        ManageError::NotFound => ProblemCode::NotFound,
        ManageError::Forbidden => ProblemCode::InsufficientPermissions,
        ManageError::SessionGone => ProblemCode::AuthenticationRequired,
    }
}

pub fn manage_error(err: ManageError) -> (r: AppError)
    ensures
        r@ == error::problem(manage_code(err)),
{
    match err {
        ManageError::NotFound => AppError::from_code(ProblemCode::NotFound),
        ManageError::Forbidden => AppError::from_code(ProblemCode::InsufficientPermissions),
        ManageError::SessionGone => AppError::from_code(ProblemCode::AuthenticationRequired),
    }
}

/// What the store made of a request about the provider of a workspace.
pub fn managed<T>(done: Result<Result<T, ManageError>, DbFailure>) -> (r: Result<T, AppError>)
    ensures
        match done {
            Err(_) => error::refused(r, ProblemCode::Internal),
            Ok(Err(err)) => error::refused(r, manage_code(err)),
            Ok(Ok(t)) => r == Ok::<T, AppError>(t),
        },
{
    match done {
        Err(_) => Err(AppError::internal()),
        Ok(Err(err)) => Err(manage_error(err)),
        Ok(Ok(t)) => Ok(t),
    }
}

/// The workspace in a path.
pub fn workspace_path(raw: &str) -> (r: Result<Uuid, AppError>)
    ensures
        match ids::uuid_of(raw@) {
            Some(id) => r == Ok::<_, AppError>(Uuid(id)),
            None => error::refused_at(r, ProblemCode::InvalidInput, "/workspaceId"@),
        },
{
    match Uuid::parse_str(raw) {
        Some(id) => Ok(id),
        None => Err(AppError::with_source(ProblemCode::InvalidInput, "/workspaceId")),
    }
}

/// The provider of a workspace, without its secret.
#[derive(Debug)]
pub struct WorkspaceOidcOutput {
    pub issuer: String,
    pub client_id: String,
    pub label: String,
}

/// The provider of a workspace, if it has one.
#[derive(Debug)]
pub struct WorkspaceOidcGetOutput {
    pub issuer: Option<String>,
    pub client_id: Option<String>,
    pub label: Option<String>,
}

/// The answer about the provider of a workspace.
pub fn workspace_oidc_reply(row: Option<WorkspaceOidcOutput>) -> (r: WorkspaceOidcGetOutput)
    ensures
        match row {
            Some(p) => r == (WorkspaceOidcGetOutput {
                issuer: Some(p.issuer),
                client_id: Some(p.client_id),
                label: Some(p.label),
            }),
            None => r.issuer is None && r.client_id is None && r.label is None,
        },
{
    match row {
        Some(p) => WorkspaceOidcGetOutput {
            issuer: Some(p.issuer),
            client_id: Some(p.client_id),
            label: Some(p.label),
        },
        None => WorkspaceOidcGetOutput { issuer: None, client_id: None, label: None },
    }
}

/// The scheme of the URL that a text writes, and whether it names a host; none where it writes
/// none.
pub uninterp spec fn url_parts(text: Seq<char>) -> Option<(Seq<char>, bool)>;

/// `url::Url::parse`: the scheme of the URL that a text writes, and whether it names a host.
#[verifier::external_body]
fn parse_url(text: &str) -> (r: Option<(String, bool)>)
    ensures
        match r {
            Some((scheme, host)) => url_parts(text@) == Some((scheme@, host)),
            None => url_parts(text@) is None,
        },
{
    url::Url::parse(text).ok().map(|u| (u.scheme().to_string(), u.host().is_some()))
}

/// A URL for the web: `http` or `https`, with a host.
pub open spec fn web_url(parts: Option<(Seq<char>, bool)>) -> bool {
    parts matches Some((scheme, host)) && host && (scheme == "http"@ || scheme == "https"@)
}

/// The provider that a workspace is given.
#[derive(Debug)]
pub struct WorkspaceOidcBody {
    pub client_id: String,
    pub client_secret: String,
    pub label: Option<String>,
}

/// The label without white space around it.
pub open spec fn label_of(label: Option<String>) -> Seq<char> {
    match label {
        Some(l) => text::trimmed(l@),
        None => Seq::empty(),
    }
}

/// Where the provider that a workspace is given is at fault; `issuer` is its issuer in normal
/// form, `parts` what that writes as a URL.
pub open spec fn provider_fault(
    issuer: Seq<char>,
    parts: Option<(Seq<char>, bool)>,
    body: WorkspaceOidcBody,
) -> Option<Seq<char>> {
    if issuer.len() == 0 || issuer.len() > ISSUER_MAX || !web_url(parts) {
        Some("/issuer"@)
    } else if text::trimmed(body.client_id@).len() == 0 || text::trimmed(body.client_id@).len()
        > CLIENT_ID_MAX {
        Some("/clientId"@)
    } else if body.client_secret@.len() == 0 || body.client_secret@.len() > CLIENT_SECRET_MAX {
        Some("/clientSecret"@)
    } else if label_of(body.label).len() > LABEL_MAX {
        Some("/label"@)
    } else {
        None
    }
}

/// The provider that is kept: its client's id and label without white space around them, and a
/// label in any case.
pub open spec fn provider_kept(issuer: Seq<char>, body: WorkspaceOidcBody, out: WorkspaceOidcOutput) -> bool {
    &&& out.issuer@ == issuer
    &&& out.client_id@ == text::trimmed(body.client_id@)
    &&& out.label@ == if label_of(body.label).len() == 0 {
        "SSO"@
    } else {
        label_of(body.label)
    }
}

/// Checks the provider that a workspace is given, by what its issuer writes as a URL.
pub fn check_provider(issuer: &str, parts: Option<(String, bool)>, body: &WorkspaceOidcBody) -> (r:
    Result<WorkspaceOidcOutput, AppError>)
    ensures
        ({
            let p = match parts {
                Some((scheme, host)) => Some((scheme@, host)),
                None => None,
            };
            match r {
                Ok(out) => provider_fault(issuer@, p, *body) is None && provider_kept(
                    issuer@,
                    *body,
                    out,
                ),
                Err(e) => provider_fault(issuer@, p, *body) matches Some(at) && e@
                    == error::problem_at(ProblemCode::InvalidInput, at),
            }
        }),
{
    let n: usize = issuer.unicode_len();
    if n == 0 || n > ISSUER_MAX {
        return Err(AppError::with_source(ProblemCode::InvalidInput, "/issuer"));
    }
    let web: bool = match &parts {
        Some((scheme, host)) => *host && (same(scheme.as_str(), "http") || same(
            scheme.as_str(),
            "https",
        )),
        None => false,
    };
    if !web {
        return Err(AppError::with_source(ProblemCode::InvalidInput, "/issuer"));
    }
    let client_id = trim(body.client_id.as_str());
    let n: usize = client_id.unicode_len();
    if n == 0 || n > CLIENT_ID_MAX {
        return Err(AppError::with_source(ProblemCode::InvalidInput, "/clientId"));
    }
    let n: usize = body.client_secret.as_str().unicode_len();
    if n == 0 || n > CLIENT_SECRET_MAX {
        return Err(AppError::with_source(ProblemCode::InvalidInput, "/clientSecret"));
    }
    let label: String = match &body.label {
        Some(l) => trim(l.as_str()).to_owned(),
        None => {
            let none = String::new();
            assert(none@ == Seq::<char>::empty());
            none
        },
    };
    let n: usize = label.as_str().unicode_len();
    if n > LABEL_MAX {
        return Err(AppError::with_source(ProblemCode::InvalidInput, "/label"));
    }
    let label = if n == 0 {
        "SSO".to_owned()
    } else {
        label
    };
    Ok(
        WorkspaceOidcOutput {
            issuer: issuer.to_owned(),
            client_id: client_id.to_owned(),
            label,
        },
    )
}

/// Checks the provider that a workspace is given; `issuer` is its issuer in normal form.
pub fn validate_input(issuer: &str, body: &WorkspaceOidcBody) -> (r: Result<
    WorkspaceOidcOutput,
    AppError,
>)
    ensures
        match r {
            Ok(out) => provider_fault(issuer@, url_parts(issuer@), *body) is None && provider_kept(
                issuer@,
                *body,
                out,
            ),
            Err(e) => provider_fault(issuer@, url_parts(issuer@), *body) matches Some(at) && e@
                == error::problem_at(ProblemCode::InvalidInput, at),
        },
{
    check_provider(issuer, parse_url(issuer), body)
}

/// A secret is kept only where there are keys to seal it with, and the sealing worked.
pub fn sealed_secret(keys: bool, sealed: Option<String>) -> (r: Result<String, AppError>)
    ensures
        if !keys {
            error::refused(r, ProblemCode::EncryptionUnavailable)
        } else {
            match sealed {
                Some(s) => r == Ok::<_, AppError>(s),
                None => error::refused(r, ProblemCode::Internal),
            }
        },
{
    if !keys {
        return Err(AppError::from_code(ProblemCode::EncryptionUnavailable));
    }
    match sealed {
        Some(s) => Ok(s),
        None => Err(AppError::internal()),
    }
}

/// Whatever becomes of a sign-in, the browser forgets its state, as long as the cookie can be
/// sent.
pub proof fn law_state_is_forgotten(
    origin: Seq<char>,
    result: Result<OidcResult, DbFailure>,
    state: StateCookie,
    session: SessionCookie,
    secure: bool,
)
    requires
        header::sendable(forget_state(state, secure)),
    ensures
        ({
            let headers = match callback_view(origin, result, state, session, secure) {
                CallbackView::Redirect { headers } => headers,
                CallbackView::Refused { headers, .. } => headers,
            };
            headers.contains(("set-cookie"@, forget_state(state, secure)))
        }),
{
    let forget = ("set-cookie"@, forget_state(state, secure));
    let first = header::with_header(Seq::empty(), "location"@, callback_location(origin, result));
    let base = first.push(forget);
    assert(base[first.len() as int] == forget);
    assert(Seq::<(Seq<char>, Seq<char>)>::empty().push(forget)[0] == forget);
    match result {
        Ok(OidcResult::Session { token }) => {
            let text = cookie::cookie_text(
                session.name@,
                token@,
                session.ttl_secs as int,
                secure,
            );
            let all = base.push(("set-cookie"@, text));
            assert(all[first.len() as int] == forget);
        },
        _ => {},
    }
}

/// Of a key that a provider sends twice the first value counts, and every key keeps one.
pub proof fn law_first_value_counts(pairs: Seq<(Seq<char>, Seq<char>)>, key: Seq<char>)
    ensures
        query::value_of(first_of_each(pairs), key) == query::value_of(pairs, key),
    decreases pairs.len(),
{
    if pairs.len() > 0 {
        let before = pairs.drop_last();
        let last = pairs.last();
        law_first_value_counts(before, key);
        law_first_value_counts(before, last.0);
        lemma_value_push(before, last, key);
        assert(before.push(last) =~= pairs);
        lemma_value_push(first_of_each(before), last, key);
    }
}

/// The value of a key behind one more pair.
proof fn lemma_value_push(
    pairs: Seq<(Seq<char>, Seq<char>)>,
    last: (Seq<char>, Seq<char>),
    key: Seq<char>,
)
    ensures
        query::value_of(pairs.push(last), key) == match query::value_of(pairs, key) {
            Some(v) => Some(v),
            None => if last.0 == key {
                Some(last.1)
            } else {
                None
            },
        },
    decreases pairs.len(),
{
    if pairs.len() == 0 {
        assert(pairs.push(last).drop_first() =~= Seq::empty());
    } else {
        assert(pairs.push(last).drop_first() =~= pairs.drop_first().push(last));
        lemma_value_push(pairs.drop_first(), last, key);
    }
}

/// A sign-in begins with what the query says: with an invitation exactly where one is named, for no
/// user yet, and in the workspace that is named.
pub proof fn law_sign_in_begins_as_asked(
    pairs: &Vec<(String, String)>,
    consents: Option<Vec<(String, i32)>>,
    r: Result<BeginInput, AppError>,
)
    requires
        call_ensures(start_input, (pairs, consents), r),
        r is Ok,
    ensures
        ({
            let p = query::pair_views(pairs@);
            let input = r->Ok_0;
            &&& error::text_view(input.invitation_token) == query::value_of(p, "invitation"@)
            &&& input.mode == Mode::Invite <==> query::value_of(p, "invitation"@) is Some
            &&& input.mode == Mode::Login <==> query::value_of(p, "invitation"@) is None
            &&& input.user_id is None
            &&& query::value_of(p, "consents"@) is Some ==> consents is Some && input.consents@
                == consents->0@
            &&& query::value_of(p, "consents"@) is None ==> input.consents@.len() == 0
            &&& match (query::value_of(p, "workspaceId"@), input.workspace_id) {
                (Some(w), Some(id)) => ids::uuid_of(w) == Some(id.0),
                (None, None) => true,
                _ => false,
            }
        }),
{
}

/// A link of an account begins for the user who asks, in the workspace that is named, and with
/// neither invitation nor consents.
pub proof fn law_account_link_begins_for_its_user(
    pairs: &Vec<(String, String)>,
    user_id: Uuid,
    r: Result<BeginInput, AppError>,
)
    requires
        call_ensures(link_input, (pairs, user_id), r),
        r is Ok,
    ensures
        ({
            let input = r->Ok_0;
            &&& input.mode == Mode::Link
            &&& input.user_id == Some(user_id)
            &&& input.invitation_token is None
            &&& input.consents@.len() == 0
            &&& match (
                query::value_of(query::pair_views(pairs@), "workspaceId"@),
                input.workspace_id,
            ) {
                (Some(w), Some(id)) => ids::uuid_of(w) == Some(id.0),
                (None, None) => true,
                _ => false,
            }
        }),
{
}

/// A session is set up exactly where the sign-in came to one, and no other result sets a second
/// cookie beside the one that forgets the state.
pub proof fn law_session_follows_sign_in_alone(
    origin: Seq<char>,
    result: Result<OidcResult, DbFailure>,
    state: StateCookie,
    session: SessionCookie,
    secure: bool,
)
    requires
        header::sendable(callback_location(origin, result)),
        header::sendable(forget_state(state, secure)),
    ensures
        match callback_view(origin, result, state, session, secure) {
            CallbackView::Refused { problem, headers } => result matches Ok(OidcResult::SeatLimit)
                && problem == error::problem(ProblemCode::LimitSeats) && headers == seq![
                ("set-cookie"@, forget_state(state, secure)),
            ],
            CallbackView::Redirect { headers } => {
                let base = seq![
                    ("location"@, callback_location(origin, result)),
                    ("set-cookie"@, forget_state(state, secure)),
                ];
                match result {
                    Ok(OidcResult::Session { token }) => {
                        let cookie = cookie::cookie_text(
                            session.name@,
                            token@,
                            session.ttl_secs as int,
                            secure,
                        );
                        header::sendable(cookie) ==> headers == base.push(("set-cookie"@, cookie))
                    },
                    _ => headers == base,
                }
            },
        },
{
    let empty = Seq::<(Seq<char>, Seq<char>)>::empty();
    let forget = ("set-cookie"@, forget_state(state, secure));
    assert(empty.push(forget) =~= seq![forget]);
    let location = ("location"@, callback_location(origin, result));
    assert(empty.push(location).push(forget) =~= seq![location, forget]);
}

/// A provider is kept with what was given, trimmed, and under a name in any case; it is accepted
/// only with an address of the web, an id and a secret.
pub proof fn law_provider_is_kept_as_given(
    issuer: Seq<char>,
    parts: Option<(Seq<char>, bool)>,
    body: WorkspaceOidcBody,
    out: WorkspaceOidcOutput,
)
    requires
        provider_fault(issuer, parts, body) is None,
        provider_kept(issuer, body, out),
    ensures
        out.issuer@ == issuer,
        1 <= issuer.len() <= ISSUER_MAX,
        parts matches Some((scheme, host)) && host && (scheme == "http"@ || scheme == "https"@),
        out.client_id@ == text::trimmed(body.client_id@),
        1 <= out.client_id@.len() <= CLIENT_ID_MAX,
        1 <= body.client_secret@.len() <= CLIENT_SECRET_MAX,
        out.label@.len() > 0,
        body.label matches Some(l) && text::trimmed(l@).len() > 0 ==> out.label@ == text::trimmed(
            body.label->0@,
        ),
        body.label is None ==> out.label@ == "SSO"@,
{
    reveal_strlit("SSO");
}

/// What one address is told by this limit does not depend on the requests of another: `limit_ip`
/// answers `b` alike behind a request of `a` and without it.
pub proof fn law_limit_ip_is_one_for_each_address(
    first: &mut RateLimiter,
    second: &mut RateLimiter,
    alone: &mut RateLimiter,
    a: &str,
    b: &str,
    now: u64,
    later: u64,
    told_a: Result<(), AppError>,
    told_b: Result<(), AppError>,
    told_alone: Result<(), AppError>,
)
    requires
        first.wf(),
        second.wf(),
        alone.wf(),
        a@ != b@,
        old(first)@.dom().len() < rate_limit::MAX_KEYS,
        old(second)@ == final(first)@,
        old(alone)@ == old(first)@,
        call_ensures(limit_ip, (first, a, now), told_a),
        call_ensures(limit_ip, (second, b, later), told_b),
        call_ensures(limit_ip, (alone, b, later), told_alone),
    ensures
        told_b is Ok <==> told_alone is Ok,
        error::told(told_b) == error::told(told_alone),
{
    rate_limit::lemma_keys_apart("oidc-ip:"@, a@, b@);
    rate_limit::lemma_other_keys_stay(
        old(first)@,
        final(first)@,
        "oidc-ip:"@ + a@,
        OIDC_PER_IP,
        WINDOW,
        now,
        "oidc-ip:"@ + b@,
    );
}

} // verus!
