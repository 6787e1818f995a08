//! Webhooks, the connection with GitHub, and the assistant.

use vstd::prelude::*;
use vstd::string::*;
use crate::answer::Answer;
use crate::authz::utf8_text;
use crate::encoding;
use crate::encoding::random_token;
use crate::error;
use crate::error::{AppError, DbFailure, ErrorView, ProblemCode};
use crate::ids;
use crate::ids::{Uuid, texts_of};
use crate::rate_limit;
use crate::rate_limit::{RateLimiter, WINDOW, charge};
use crate::routes::account::OkResponse;
use crate::routes::api_tokens::copy_texts;
use crate::store;
use crate::store::{Refusal, stored};
use crate::text;
use crate::text::{join2, trim, trim_end_char};
use crate::time::Timestamp;

verus! {

/// The most bytes of the name of an event.
pub const EVENT_MAX_BYTES: usize = 100;

/// Requests to the assistant that one user may make within five minutes.
pub const AI_PER_USER: u32 = 10;

/// Why the store refused a request about an integration.
#[derive(Clone, Copy, Debug, PartialEq, Eq, Structural)]
pub enum IntegrationDbError {
    NotFound,
    Conflict,
    InvalidInput,
}

/// The problem that a refusal about an integration is told as.
pub open spec fn integration_code(err: IntegrationDbError) -> ProblemCode {
    match err {
        IntegrationDbError::NotFound => ProblemCode::NotFound,
        IntegrationDbError::Conflict | IntegrationDbError::InvalidInput => {
            ProblemCode::InvalidInput
        },
    }
}

pub fn map_db_error(err: IntegrationDbError) -> (r: AppError)
    ensures
        r@ == error::problem(integration_code(err)),
{
    match err {
        IntegrationDbError::NotFound => AppError::from_code(ProblemCode::NotFound),
        IntegrationDbError::Conflict | IntegrationDbError::InvalidInput => AppError::from_code(
            ProblemCode::InvalidInput,
        ),
    }
}

impl Refusal for IntegrationDbError {
    open spec fn problem(&self) -> ErrorView {
        error::problem(integration_code(*self))
    }

    fn refusal(&self) -> (r: AppError) {
        map_db_error(*self)
    }
}

/// A webhook, as the store keeps it.
#[derive(Debug)]
pub struct WebhookRow {
    pub id: Uuid,
    pub workspace_id: Uuid,
    pub url: String,
    pub events: Vec<String>,
    pub created_at: Timestamp,
    pub updated_at: Timestamp,
}

/// A webhook as it is answered.
#[derive(Debug)]
pub struct WebhookOutput {
    pub id: String,
    pub workspace_id: String,
    pub url: String,
    pub events: Vec<String>,
    pub created_at: Timestamp,
    pub updated_at: Timestamp,
}

impl Answer for WebhookRow {
    type Out = WebhookOutput;

    open spec fn answered(&self, out: &WebhookOutput) -> bool {
        &&& out.id@ == ids::uuid_text(self.id.0)
        &&& out.workspace_id@ == ids::uuid_text(self.workspace_id.0)
        &&& out.url@ == self.url@
        &&& text::views(out.events@) == text::views(self.events@)
        &&& out.created_at == self.created_at
        &&& out.updated_at == self.updated_at
    }

    fn answer(&self) -> (r: WebhookOutput) {
        WebhookOutput {
            id: self.id.text(),
            workspace_id: self.workspace_id.text(),
            url: self.url.clone(),
            events: copy_texts(self.events.as_slice()),
            created_at: self.created_at,
            updated_at: self.updated_at,
        }
    }
}

/// A secret for a webhook: 32 random bytes in the alphabet for URLs.
pub fn new_webhook_secret() -> (r: String)
    ensures
        encoding::url_token(r@, 32),
{
    random_token(32)
}

/// The name of an event holds something, and not too much.
pub open spec fn event_name_fits(name: Seq<char>) -> bool {
    name.len() > 0 && vstd::utf8::encode_utf8(name).len() <= EVENT_MAX_BYTES
}

/// Every name of an event holds something, and not too much.
pub open spec fn event_names_fit(names: Seq<String>) -> bool {
    forall|i: int| 0 <= i < names.len() ==> event_name_fits(#[trigger] names[i]@)
}

/// Checks the names of the events of a webhook.
fn check_event_names(names: &[String]) -> (r: bool)
    ensures
        r == event_names_fit(names@),
{
    let mut i: usize = 0;
    while i < names.len()
        invariant
            i <= names@.len(),
            forall|j: int| 0 <= j < i ==> event_name_fits(#[trigger] names@[j]@),
        decreases names.len() - i,
    {
        if names[i].as_str().unicode_len() == 0 || names[i].as_str().as_bytes().len()
            > EVENT_MAX_BYTES {
            assert(!event_name_fits(names@[i as int]@));
            return false;
        }
        i = i + 1;
    }
    true
}

/// Where and of what a webhook is told.
#[derive(Debug)]
pub struct WebhookInput {
    pub url: String,
    pub events: Vec<String>,
}

/// The problem of a webhook to be made, if it has one: its address, then its events, then that
/// secrets cannot be kept here.
pub open spec fn webhook_problem(
    url: Option<String>,
    names: Seq<String>,
    events: Option<Vec<String>>,
    has_keys: bool,
) -> Option<ErrorView> {
    if url is None {
        Some(error::problem_at(ProblemCode::InvalidInput, "/url"@))
    } else if !event_names_fit(names) || events is None {
        Some(error::problem_at(ProblemCode::InvalidInput, "/events"@))
    } else if !has_keys {
        Some(error::problem(ProblemCode::IntegrationUnavailable))
    } else {
        None
    }
}

/// Reads a webhook to be made: `url` is its address, where it may be called; `events` the events
/// that the names stand for, where they are known; `has_keys`, whether secrets can be kept.
pub fn webhook_input(
    url: Option<String>,
    names: &[String],
    events: Option<Vec<String>>,
    has_keys: bool,
) -> (r: Result<WebhookInput, AppError>)
    ensures
        match r {
            Err(e) => webhook_problem(url, names@, events, has_keys) == Some(e@),
            Ok(input) => webhook_problem(url, names@, events, has_keys) is None && url == Some(
                input.url,
            ) && events == Some(input.events),
        },
{
    let url = match url {
        Some(u) => u,
        None => {
            return Err(AppError::with_source(ProblemCode::InvalidInput, "/url"));
        },
    };
    if !check_event_names(names) {
        return Err(AppError::with_source(ProblemCode::InvalidInput, "/events"));
    }
    let events = match events {
        Some(e) => e,
        None => {
            return Err(AppError::with_source(ProblemCode::InvalidInput, "/events"));
        },
    };
    if !has_keys {
        return Err(AppError::from_code(ProblemCode::IntegrationUnavailable));
    }
    Ok(WebhookInput { url, events })
}

/// The answer with a webhook that was made: its secret is told only here.
#[derive(Debug)]
pub struct WebhookCreatedOutput {
    pub base: WebhookOutput,
    pub secret: String,
}

/// The answer to the making of a webhook.
pub fn webhook_created(
    done: Result<Result<WebhookRow, IntegrationDbError>, DbFailure>,
    secret: String,
) -> (r: Result<WebhookCreatedOutput, AppError>)
    ensures
        match r {
            Ok(out) => done matches Ok(Ok(row)) && row.answered(&out.base) && out.secret == secret,
            Err(e) => store::store_problem(done) == Some(e@),
        },
{
    match stored(done) {
        Err(e) => Err(e),
        Ok(row) => Ok(WebhookCreatedOutput { base: row.answer(), secret }),
    }
}

/// Whether a connection with GitHub may be started: it has to be set up here, and the user to
/// manage the workspace.
pub fn install_admitted(configured: bool, manager: Result<bool, DbFailure>) -> (r: Result<
    (),
    AppError,
>)
    ensures
        if !configured {
            error::refused(r, ProblemCode::InvalidInput)
        } else {
            match manager {
                Err(_) => error::refused(r, ProblemCode::Internal),
                Ok(false) => error::refused(r, ProblemCode::NotFound),
                Ok(true) => r is Ok,
            }
        },
{
    if !configured {
        return Err(AppError::from_code(ProblemCode::InvalidInput));
    }
    match manager {
        Err(_) => Err(AppError::internal()),
        Ok(false) => Err(AppError::from_code(ProblemCode::NotFound)),
        Ok(true) => Ok(()),
    }
}

/// What GitHub said to a question, where it said yes.
pub fn github_said<T>(reply: Option<T>) -> (r: Result<T, AppError>)
    ensures
        match reply {
            Some(t) => r == Ok::<T, AppError>(t),
            None => error::refused(r, ProblemCode::InvalidInput),
        },
{
    match reply {
        Some(t) => Ok(t),
        None => Err(AppError::from_code(ProblemCode::InvalidInput)),
    }
}

/// The number of an issue.
pub fn issue_number(number: i64) -> (r: Result<i32, AppError>)
    ensures
        if i32::MIN <= number <= i32::MAX {
            r == Ok::<_, AppError>(number as i32)
        } else {
            error::refused_at(r, ProblemCode::InvalidInput, "/issueNumber"@)
        },
{
    if number < i32::MIN as i64 || number > i32::MAX as i64 {
        Err(AppError::with_source(ProblemCode::InvalidInput, "/issueNumber"))
    } else {
        Ok(number as i32)
    }
}

/// The link of a task with an issue, as the store keeps it.
#[derive(Debug)]
pub struct IssueLink {
    pub id: Uuid,
    pub task_id: Uuid,
    pub repo: String,
    pub issue_number: i32,
}

/// The link of a task with an issue as it is answered.
#[derive(Debug)]
pub struct GithubIssueLinkOutput {
    pub id: String,
    pub task_id: String,
    pub repo: String,
    pub issue_number: i32,
}

impl Answer for IssueLink {
    type Out = GithubIssueLinkOutput;

    open spec fn answered(&self, out: &GithubIssueLinkOutput) -> bool {
        &&& out.id@ == ids::uuid_text(self.id.0)
        &&& out.task_id@ == ids::uuid_text(self.task_id.0)
        &&& out.repo@ == self.repo@
        &&& out.issue_number == self.issue_number
    }

    fn answer(&self) -> (r: GithubIssueLinkOutput) {
        GithubIssueLinkOutput {
            id: self.id.text(),
            task_id: self.task_id.text(),
            repo: self.repo.clone(),
            issue_number: self.issue_number,
        }
    }
}

/// The query with which a browser comes back from GitHub.
#[derive(Debug)]
pub struct CallbackQuery {
    pub state: Option<String>,
    pub installation_id: Option<String>,
}

/// What a browser brings back from GitHub: the state and the installation. `query` is none where
/// it could not be read.
pub fn callback_ids(query: Option<CallbackQuery>, configured: bool) -> (r: Result<
    (String, String),
    AppError,
>)
    ensures
        match query {
            Some(CallbackQuery { state: Some(state), installation_id: Some(id) }) if configured => {
                r matches Ok(ids) && ids.0 == state && ids.1@ == text::trimmed(id@)
            },
            _ => error::refused(r, ProblemCode::InvalidInput),
        },
{
    if !configured {
        return Err(AppError::from_code(ProblemCode::InvalidInput));
    }
    match query {
        Some(CallbackQuery { state: Some(state), installation_id: Some(id) }) => Ok(
            (state, trim(id.as_str()).to_owned()),
        ),
        _ => Err(AppError::from_code(ProblemCode::InvalidInput)),
    }
}

/// What a browser brings back, checked: the id can be one, and the state, where it is one that was
/// handed out, says for which workspace and with which nonce.
pub fn callback_state(id_ok: bool, verified: Option<(Uuid, String)>) -> (r: Result<
    (Uuid, String),
    AppError,
>)
    ensures
        match verified {
            Some(v) if id_ok => r == Ok::<_, AppError>(v),
            _ => error::refused(r, ProblemCode::InvalidInput),
        },
{
    match verified {
        Some(v) if id_ok => Ok(v),
        _ => Err(AppError::from_code(ProblemCode::InvalidInput)),
    }
}

/// Where a browser goes once a connection was made. `exists` is whether GitHub knows the
/// installation, none where it could not be asked.
pub fn install_completed(
    exists: Option<bool>,
    done: Result<Result<(), IntegrationDbError>, DbFailure>,
    origin: &str,
) -> (r: Result<String, AppError>)
    ensures
        if exists != Some(true) {
            error::refused(r, ProblemCode::InvalidInput)
        } else {
            match done {
                Err(_) => error::refused(r, ProblemCode::Internal),
                Ok(Err(_)) => error::refused(r, ProblemCode::InvalidInput),
                Ok(Ok(_)) => r matches Ok(url) && url@ == text::without_trailing(origin@, '/')
                    + "/"@,
            }
        },
{
    match exists {
        Some(true) => {},
        _ => {
            return Err(AppError::from_code(ProblemCode::InvalidInput));
        },
    }
    match done {
        Err(_) => Err(AppError::internal()),
        Ok(Err(_)) => Err(AppError::from_code(ProblemCode::InvalidInput)),
        Ok(Ok(_)) => Ok(join2(trim_end_char(origin, '/'), "/")),
    }
}

/// Why what GitHub sent was not taken.
#[derive(Clone, Copy, Debug, PartialEq, Eq, Structural)]
pub enum InboundError {
    Signature,
    Invalid,
    Db,
}

/// What GitHub sent, where it could be read: `too_large`, whether it was too large otherwise.
pub fn inbound_body<B>(configured: bool, body: Option<B>, too_large: bool) -> (r: Result<
    B,
    AppError,
>)
    ensures
        if !configured {
            error::refused(r, ProblemCode::InvalidInput)
        } else {
            match body {
                Some(b) => r == Ok::<B, AppError>(b),
                None => r matches Err(e) && e@ == error::problem_with(
                    if too_large {
                        413
                    } else {
                        400
                    },
                    ProblemCode::InvalidInput,
                ),
            }
        },
{
    if !configured {
        return Err(AppError::from_code(ProblemCode::InvalidInput));
    }
    match body {
        Some(b) => Ok(b),
        None => if too_large {
            Err(AppError::problem(413, ProblemCode::InvalidInput))
        } else {
            Err(AppError::problem(400, ProblemCode::InvalidInput))
        },
    }
}

/// The answer to what GitHub sent.
pub fn inbound_reply(handled: Result<(), InboundError>) -> (r: Result<OkResponse, AppError>)
    ensures
        match handled {
            Ok(_) => r == Ok::<_, AppError>(OkResponse { ok: true }),
            Err(InboundError::Signature) => error::refused(r, ProblemCode::AuthenticationRequired),
            Err(InboundError::Invalid) => error::refused(r, ProblemCode::InvalidInput),
            Err(InboundError::Db) => error::refused(r, ProblemCode::Internal),
        },
{
    match handled {
        Ok(_) => Ok(OkResponse { ok: true }),
        Err(InboundError::Signature) => Err(
            AppError::from_code(ProblemCode::AuthenticationRequired),
        ),
        Err(InboundError::Invalid) => Err(AppError::from_code(ProblemCode::InvalidInput)),
        Err(InboundError::Db) => Err(AppError::internal()),
    }
}

/// Charges a user with a request to the assistant.
pub fn ai_limit(limiter: &mut RateLimiter, user_id: Uuid, now: u64) -> (r: Result<(), AppError>)
    requires
        old(limiter).wf(),
    ensures
        final(limiter).wf(),
        rate_limit::charged_once(
            old(limiter)@,
            final(limiter)@,
            "ai-user:"@ + ids::uuid_text(user_id.0),
            AI_PER_USER,
            WINDOW,
            now,
            error::told(r),
        ),
{
    let id = user_id.text();
    let key = join2("ai-user:", id.as_str());
    charge(limiter, key.as_str(), AI_PER_USER, WINDOW, now)
}

/// Whether a request to the assistant is let in: only a member learns whether there is one.
/// `available` is whether the assistant and what writes documents out are set up.
pub fn ai_admit(member: Result<bool, DbFailure>, available: bool) -> (r: Result<(), AppError>)
    ensures
        match member {
            Err(_) => error::refused(r, ProblemCode::Internal),
            Ok(false) => error::refused(r, ProblemCode::NotFound),
            Ok(true) => if available {
                r is Ok
            } else {
                error::refused(r, ProblemCode::AiUnavailable)
            },
        },
{
    match member {
        Err(_) => Err(AppError::internal()),
        Ok(false) => Err(AppError::from_code(ProblemCode::NotFound)),
        Ok(true) => if available {
            Ok(())
        } else {
            Err(AppError::from_code(ProblemCode::AiUnavailable))
        },
    }
}

/// A document as a text, where it could be written out: `written` are the bytes, none where that
/// failed; `has_convert`, whether it can be at all.
pub fn ai_markdown(has_convert: bool, written: Option<Vec<u8>>) -> (r: Result<String, AppError>)
    ensures
        if !has_convert {
            error::refused(r, ProblemCode::AiUnavailable)
        } else {
            match written {
                Some(bytes) => if vstd::utf8::valid_utf8(bytes@) {
                    r matches Ok(s) && s@ == vstd::utf8::decode_utf8(bytes@)
                } else {
                    error::refused(r, ProblemCode::Internal)
                },
                None => error::refused(r, ProblemCode::Internal),
            }
        },
{
    if !has_convert {
        return Err(AppError::from_code(ProblemCode::AiUnavailable));
    }
    match written {
        Some(bytes) => match utf8_text(bytes) {
            Some(s) => Ok(s),
            None => Err(AppError::internal()),
        },
        None => Err(AppError::internal()),
    }
}

/// The documents that the assistant suggests.
pub fn suggested(found: Result<Vec<Uuid>, DbFailure>) -> (r: Result<Vec<String>, AppError>)
    ensures
        match found {
            Err(_) => error::refused(r, ProblemCode::Internal),
            Ok(found) => r matches Ok(out) && text::views(out@) == ids::uuid_texts(found@),
        },
{
    match found {
        Err(_) => Err(AppError::internal()),
        Ok(found) => Ok(texts_of(found.as_slice())),
    }
}

/// Each value of a webhook is answered under the name that it is kept by.
pub proof fn law_webhook_is_answered_as_kept(row: WebhookRow, out: WebhookOutput)
    requires
        row.answered(&out),
    ensures
        ids::uuid_of(out.id@) == Some(row.id.0),
        ids::uuid_of(out.workspace_id@) == Some(row.workspace_id.0),
        out.url@ == row.url@,
        text::views(out.events@) == text::views(row.events@),
        out.created_at == row.created_at,
        out.updated_at == row.updated_at,
{
    ids::law_uuid_round_trip(row.id.0);
    ids::law_uuid_round_trip(row.workspace_id.0);
}

/// Each value of an issue link is answered under the name that it is kept by.
pub proof fn law_issue_link_is_answered_as_kept(row: IssueLink, out: GithubIssueLinkOutput)
    requires
        row.answered(&out),
    ensures
        ids::uuid_of(out.id@) == Some(row.id.0),
        ids::uuid_of(out.task_id@) == Some(row.task_id.0),
        out.repo@ == row.repo@,
        out.issue_number == row.issue_number,
{
    ids::law_uuid_round_trip(row.id.0);
    ids::law_uuid_round_trip(row.task_id.0);
}

/// What one user is told by this limit does not depend on the requests of another: `ai_limit`
/// answers `b` alike behind a request of `a` and without it.
pub proof fn law_ai_limit_is_one_for_each_user(
    first: &mut RateLimiter,
    second: &mut RateLimiter,
    alone: &mut RateLimiter,
    a: Uuid,
    b: Uuid,
    now: u64,
    later: u64,
    told_a: Result<(), AppError>,
    told_b: Result<(), AppError>,
    told_alone: Result<(), AppError>,
)
    requires
        first.wf(),
        second.wf(),
        alone.wf(),
        a != b,
        old(first)@.dom().len() < rate_limit::MAX_KEYS,
        old(second)@ == final(first)@,
        old(alone)@ == old(first)@,
        call_ensures(ai_limit, (first, a, now), told_a),
        call_ensures(ai_limit, (second, b, later), told_b),
        call_ensures(ai_limit, (alone, b, later), told_alone),
    ensures
        told_b is Ok <==> told_alone is Ok,
        error::told(told_b) == error::told(told_alone),
{
    ids::law_uuid_texts_are_apart(a.0, b.0);
    rate_limit::lemma_keys_apart("ai-user:"@, ids::uuid_text(a.0), ids::uuid_text(b.0));
    rate_limit::lemma_other_keys_stay(
        old(first)@,
        final(first)@,
        "ai-user:"@ + ids::uuid_text(a.0),
        AI_PER_USER,
        WINDOW,
        now,
        "ai-user:"@ + ids::uuid_text(b.0),
    );
}

} // verus!
