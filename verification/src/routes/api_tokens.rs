//! The API tokens of a workspace and of a user.

use vstd::prelude::*;
use crate::answer::Answer;
use crate::authz::ApiTokenScope;
use crate::error;
use crate::error::{AppError, DbFailure, ErrorView, ProblemCode};
use crate::ids;
use crate::ids::{Uuid, text_of};
use crate::rate_limit;
use crate::rate_limit::{RateLimiter, WINDOW, charge};
use crate::store;
use crate::store::{Refusal, stored};
use crate::text;
use crate::text::join2;
use crate::time::Timestamp;

verus! {

/// Every one of the scopes is known.
pub open spec fn all_known(parsed: Seq<Option<ApiTokenScope>>) -> bool {
    forall|i: int| 0 <= i < parsed.len() ==> (#[trigger] parsed[i]) is Some
}

/// The scopes of a token that is made: at least one, and every one of them known. `parsed` is
/// what each name in the request stands for.
pub fn parse_scopes(parsed: &[Option<ApiTokenScope>]) -> (r: Result<Vec<ApiTokenScope>, AppError>)
    ensures
        match r {
            Ok(scopes) => takes_scopes(parsed@, scopes@),
            Err(e) => (parsed@.len() == 0 || !all_known(parsed@)) && e@ == error::problem(
                ProblemCode::InvalidInput,
            ),
        },
{
    if parsed.len() == 0 {
        return Err(AppError::from_code(ProblemCode::InvalidInput));
    }
    let mut scopes: Vec<ApiTokenScope> = Vec::new();
    let mut i: usize = 0;
    while i < parsed.len()
        invariant
            i <= parsed@.len(),
            parsed@.len() > 0,
            scopes@.len() == i,
            forall|j: int| 0 <= j < i ==> #[trigger] parsed@[j] == Some(scopes@[j]),
        decreases parsed.len() - i,
    {
        match parsed[i] {
            Some(s) => {
                scopes.push(s);
            },
            None => {
                assert(parsed@[i as int] is None);
                return Err(AppError::from_code(ProblemCode::InvalidInput));
            },
        }
        i = i + 1;
    }
    Ok(scopes)
}

/// A token to be made.
#[derive(Debug)]
pub struct CreateApiTokenInput {
    pub name: String,
    pub scopes: Vec<ApiTokenScope>,
    pub unlimited: bool,
    pub service: bool,
}

/// The scopes are known, at least one, and those of the token.
pub open spec fn takes_scopes(
    parsed: Seq<Option<ApiTokenScope>>,
    scopes: Seq<ApiTokenScope>,
) -> bool {
    &&& parsed.len() > 0
    &&& scopes.len() == parsed.len()
    &&& forall|i: int| 0 <= i < parsed.len() ==> #[trigger] parsed[i] == Some(scopes[i])
}

/// A token of a workspace: it ends, and acts for its user, unless the request says otherwise.
pub fn workspace_token_input(
    name: String,
    parsed: &[Option<ApiTokenScope>],
    unlimited: Option<bool>,
    service: Option<bool>,
) -> (r: Result<CreateApiTokenInput, AppError>)
    ensures
        match r {
            Ok(input) => {
                &&& takes_scopes(parsed@, input.scopes@)
                &&& input.name == name
                &&& input.unlimited <==> unlimited == Some(true)
                &&& input.service <==> service == Some(true)
            },
            Err(e) => (parsed@.len() == 0 || !all_known(parsed@)) && e@ == error::problem(
                ProblemCode::InvalidInput,
            ),
        },
{
    let scopes = match parse_scopes(parsed) {
        Err(e) => {
            return Err(e);
        },
        Ok(scopes) => scopes,
    };
    let unlimited = match unlimited {
        Some(u) => u,
        None => false,
    };
    let service = match service {
        Some(s) => s,
        None => false,
    };
    Ok(CreateApiTokenInput { name, scopes, unlimited, service })
}

/// A token of a user: it ends, and acts for its user.
pub fn me_token_input(name: String, parsed: &[Option<ApiTokenScope>]) -> (r: Result<
    CreateApiTokenInput,
    AppError,
>)
    ensures
        match r {
            Ok(input) => {
                &&& takes_scopes(parsed@, input.scopes@)
                &&& input.name == name
                &&& !input.unlimited
                &&& !input.service
            },
            Err(e) => (parsed@.len() == 0 || !all_known(parsed@)) && e@ == error::problem(
                ProblemCode::InvalidInput,
            ),
        },
{
    workspace_token_input(name, parsed, None, None)
}

/// A token, as the store keeps it.
#[derive(Debug)]
pub struct ApiTokenRecord {
    pub id: Uuid,
    pub workspace_id: Uuid,
    pub user_id: Option<Uuid>,
    pub name: String,
    /// The names of its scopes.
    pub scopes: Vec<String>,
    pub expires_at: Option<Timestamp>,
    pub created_at: Timestamp,
}

/// A token as it is answered.
#[derive(Debug)]
pub struct ApiTokenOutput {
    pub id: String,
    pub workspace_id: String,
    pub user_id: Option<String>,
    pub name: String,
    pub scopes: Vec<String>,
    pub expires_at: Option<Timestamp>,
    pub created_at: Timestamp,
}

/// The same texts once more.
pub fn copy_texts(items: &[String]) -> (r: Vec<String>)
    ensures
        text::views(r@) == text::views(items@),
{
    let mut out: Vec<String> = Vec::new();
    let mut i: usize = 0;
    while i < items.len()
        invariant
            i <= items@.len(),
            out@.len() == i,
            forall|j: int| 0 <= j < i ==> (#[trigger] out@[j])@ == items@[j]@,
        decreases items.len() - i,
    {
        out.push(items[i].clone());
        i = i + 1;
    }
    assert(text::views(out@) == text::views(items@));
    out
}

impl Answer for ApiTokenRecord {
    type Out = ApiTokenOutput;

    open spec fn answered(&self, out: &ApiTokenOutput) -> bool {
        &&& out.id@ == ids::uuid_text(self.id.0)
        &&& out.workspace_id@ == ids::uuid_text(self.workspace_id.0)
        &&& error::text_view(out.user_id) == ids::opt_text(self.user_id)
        &&& out.name@ == self.name@
        &&& text::views(out.scopes@) == text::views(self.scopes@)
        &&& out.expires_at == self.expires_at
        &&& out.created_at == self.created_at
    }

    fn answer(&self) -> (r: ApiTokenOutput) {
        ApiTokenOutput {
            id: self.id.text(),
            workspace_id: self.workspace_id.text(),
            user_id: text_of(self.user_id),
            name: self.name.clone(),
            scopes: copy_texts(self.scopes.as_slice()),
            expires_at: self.expires_at,
            created_at: self.created_at,
        }
    }
}

/// A token that was made: its record, and the token itself, which is told only once.
#[derive(Debug)]
pub struct CreatedApiToken {
    pub record: ApiTokenRecord,
    pub token: String,
}

/// The answer with a token that was made.
#[derive(Debug)]
pub struct ApiTokenCreatedOutput {
    pub base: ApiTokenOutput,
    pub token: String,
}

/// Why a token was not made, listed or revoked.
#[derive(Clone, Copy, Debug, PartialEq, Eq, Structural)]
pub enum ApiTokenDbError {
    InvalidInput,
    Forbidden,
    NotFound,
}

/// The problem that a refusal about tokens is told as.
pub open spec fn token_code(err: ApiTokenDbError) -> ProblemCode {
    match err {
        ApiTokenDbError::InvalidInput => ProblemCode::InvalidInput,
        ApiTokenDbError::Forbidden | ApiTokenDbError::NotFound => ProblemCode::NotFound,
    }
}

pub fn map_token_error(err: ApiTokenDbError) -> (r: AppError)
    ensures
        r@ == error::problem(token_code(err)),
{
    match err {
        ApiTokenDbError::InvalidInput => AppError::from_code(ProblemCode::InvalidInput),
        ApiTokenDbError::Forbidden | ApiTokenDbError::NotFound => AppError::from_code(
            ProblemCode::NotFound,
        ),
    }
}

impl Refusal for ApiTokenDbError {
    open spec fn problem(&self) -> ErrorView {
        error::problem(token_code(*self))
    }

    fn refusal(&self) -> (r: AppError) {
        map_token_error(*self)
    }
}

/// The answer to the making of a token.
pub fn created_output(
    done: Result<Result<CreatedApiToken, ApiTokenDbError>, DbFailure>,
) -> (r: Result<ApiTokenCreatedOutput, AppError>)
    ensures
        match r {
            Ok(out) => done matches Ok(Ok(c)) && c.record.answered(&out.base) && out.token
                == c.token,
            Err(e) => store::store_problem(done) == Some(e@),
        },
{
    match stored(done) {
        Err(e) => Err(e),
        Ok(c) => {
            let base = c.record.answer();
            Ok(ApiTokenCreatedOutput { base, token: c.token })
        },
    }
}

/// Charges a user with the making of a token; `limit` is how many they may make within five
/// minutes.
pub fn token_limit(limiter: &mut RateLimiter, user_id: Uuid, limit: u32, now: u64) -> (r: Result<
    (),
    AppError,
>)
    requires
        old(limiter).wf(),
    ensures
        final(limiter).wf(),
        rate_limit::charged_once(
            old(limiter)@,
            final(limiter)@,
            "api-token-create:"@ + ids::uuid_text(user_id.0),
            limit,
            WINDOW,
            now,
            error::told(r),
        ),
{
    let id = user_id.text();
    let key = join2("api-token-create:", id.as_str());
    charge(limiter, key.as_str(), limit, WINDOW, now)
}

/// Each value of an api token is answered under the name that it is kept by.
pub proof fn law_api_token_is_answered_as_kept(row: ApiTokenRecord, out: ApiTokenOutput)
    requires
        row.answered(&out),
    ensures
        ids::uuid_of(out.id@) == Some(row.id.0),
        ids::uuid_of(out.workspace_id@) == Some(row.workspace_id.0),
        match (row.user_id, out.user_id) {
            (Some(id), Some(s)) => ids::uuid_of(s@) == Some(id.0),
            (None, None) => true,
            _ => false,
        },
        out.name@ == row.name@,
        text::views(out.scopes@) == text::views(row.scopes@),
        out.expires_at == row.expires_at,
        out.created_at == row.created_at,
{
    ids::law_uuid_round_trip(row.id.0);
    ids::law_uuid_round_trip(row.workspace_id.0);
    if let Some(id) = row.user_id {
        ids::law_uuid_round_trip(id.0);
    }
}

/// A token is made with the name that was given and exactly the scopes that were asked for, in
/// their order; one of a user is neither without limits nor one for a service.
pub proof fn law_token_is_made_as_asked(
    name: String,
    parsed: &[Option<ApiTokenScope>],
    unlimited: Option<bool>,
    service: Option<bool>,
    r: Result<CreateApiTokenInput, AppError>,
    own: Result<CreateApiTokenInput, AppError>,
)
    requires
        call_ensures(workspace_token_input, (name, parsed, unlimited, service), r),
        call_ensures(me_token_input, (name, parsed), own),
    ensures
        r is Ok <==> own is Ok,
        r is Ok <==> parsed@.len() > 0 && forall|i: int|
            0 <= i < parsed@.len() ==> (#[trigger] parsed@[i]) is Some,
        r matches Ok(input) ==> input.name == name && (input.unlimited <==> unlimited == Some(true))
            && (input.service <==> service == Some(true)),
        own matches Ok(input) ==> input.name == name && !input.unlimited && !input.service,
        r is Ok ==> r->Ok_0.scopes@.len() == parsed@.len() && forall|i: int|
            0 <= i < parsed@.len() ==> parsed@[i] == Some(#[trigger] r->Ok_0.scopes@[i]),
        own is Ok ==> own->Ok_0.scopes@ == r->Ok_0.scopes@,
{
    if own is Ok && r is Ok {
        let a = own->Ok_0.scopes@;
        let b = r->Ok_0.scopes@;
        assert forall|i: int| 0 <= i < a.len() implies a[i] == b[i] by {
            assert(parsed@[i] == Some(a[i]));
            assert(parsed@[i] == Some(b[i]));
        }
        assert(a =~= b);
    }
}

/// What one user is told by this limit does not depend on the requests of another: `token_limit`
/// answers `b` alike behind a request of `a` and without it.
pub proof fn law_token_limit_is_one_for_each_user(
    first: &mut RateLimiter,
    second: &mut RateLimiter,
    alone: &mut RateLimiter,
    a: Uuid,
    b: Uuid,
    limit: u32,
    now: u64,
    later: u64,
    told_a: Result<(), AppError>,
    told_b: Result<(), AppError>,
    told_alone: Result<(), AppError>,
)
    requires
        first.wf(),
        second.wf(),
        alone.wf(),
        a != b,
        old(first)@.dom().len() < rate_limit::MAX_KEYS,
        old(second)@ == final(first)@,
        old(alone)@ == old(first)@,
        call_ensures(token_limit, (first, a, limit, now), told_a),
        call_ensures(token_limit, (second, b, limit, later), told_b),
        call_ensures(token_limit, (alone, b, limit, later), told_alone),
    ensures
        told_b is Ok <==> told_alone is Ok,
        error::told(told_b) == error::told(told_alone),
{
    ids::law_uuid_texts_are_apart(a.0, b.0);
    rate_limit::lemma_keys_apart("api-token-create:"@, ids::uuid_text(a.0), ids::uuid_text(b.0));
    rate_limit::lemma_other_keys_stay(
        old(first)@,
        final(first)@,
        "api-token-create:"@ + ids::uuid_text(a.0),
        limit,
        WINDOW,
        now,
        "api-token-create:"@ + ids::uuid_text(b.0),
    );
}

} // verus!
