//! Comments on documents and tasks.

use vstd::prelude::*;
use crate::error;
use crate::error::{ApiError, AppError, DbFailure, Params, ProblemCode};
use crate::ids;
use crate::ids::Uuid;
use crate::rate_limit;
use crate::rate_limit::{RateLimiter, WINDOW, charge};
use crate::routes::account::OkResponse;
use crate::text::join2;
use crate::time::Timestamp;

verus! {

/// Comments that one user may write within five minutes.
pub const COMMENT_CREATE_LIMIT: u32 = 60;

/// The comments of a page where a query names no number.
pub const COMMENT_PAGE: i32 = 50;

/// The query of a list of comments.
#[derive(Debug)]
pub struct CommentListQueryParams {
    pub cursor: Option<String>,
    pub limit: Option<i32>,
}

/// The number of items that a query asks for.
pub fn page_limit(limit: Option<i32>) -> (r: i32)
    ensures
        r == match limit {
            Some(n) => n,
            None => COMMENT_PAGE,
        },
{
    match limit {
        Some(n) => n,
        None => COMMENT_PAGE,
    }
}

/// Why the store refused something about a comment.
#[derive(Clone, Copy, Debug, PartialEq, Eq, Structural)]
pub enum CommentDbError {
    NotFound,
    InvalidInput,
    InvalidCursor,
    Conflict,
    ProjectArchived,
    TaskArchived,
}

/// The problem that a refusal of the store ends in.
pub open spec fn comment_problem(err: CommentDbError) -> error::ApiErrorView {
    match err {
        CommentDbError::NotFound => error::coded_problem(404, "not_found"@, "not found"@),
        CommentDbError::InvalidInput => error::api_problem(ProblemCode::InvalidInput),
        CommentDbError::InvalidCursor => error::ApiErrorView::Coded {
            status: 400,
            code: "invalid_cursor"@,
            title: "invalid cursor"@,
            params: Some(error::ParamsView::Code("invalid_cursor"@)),
        },
        CommentDbError::Conflict => error::coded_problem(409, "conflict"@, "conflict"@),
        CommentDbError::ProjectArchived => error::api_problem(ProblemCode::ProjectArchived),
        CommentDbError::TaskArchived => error::coded_problem(
            409,
            "task_archived"@,
            "task archived"@,
        ),
    }
}

pub fn map_comment_error(err: CommentDbError) -> (r: ApiError)
    ensures
        r@ == comment_problem(err),
{
    match err {
        CommentDbError::NotFound => ApiError::coded(404, "not_found", "not found"),
        CommentDbError::InvalidInput => ApiError::app(ProblemCode::InvalidInput),
        CommentDbError::InvalidCursor => ApiError::Coded {
            status: 400,
            code: "invalid_cursor".to_owned(),
            title: "invalid cursor".to_owned(),
            params: Some(Params::Code("invalid_cursor".to_owned())),
        },
        CommentDbError::Conflict => ApiError::coded(409, "conflict", "conflict"),
        CommentDbError::ProjectArchived => ApiError::app(ProblemCode::ProjectArchived),
        CommentDbError::TaskArchived => ApiError::coded(409, "task_archived", "task archived"),
    }
}

/// What the store made of a request about a comment.
pub fn comment_result<T>(found: Result<Result<T, CommentDbError>, DbFailure>) -> (r: Result<
    T,
    ApiError,
>)
    ensures
        match found {
            Err(_) => error::api_refused(r, ProblemCode::Internal),
            Ok(Err(err)) => r matches Err(e) && e@ == comment_problem(err),
            Ok(Ok(t)) => r == Ok::<T, ApiError>(t),
        },
{
    match found {
        Err(_) => Err(ApiError::app(ProblemCode::Internal)),
        Ok(Err(err)) => Err(map_comment_error(err)),
        Ok(Ok(t)) => Ok(t),
    }
}

/// The answer to a change that has nothing to show.
pub fn comment_done(done: Result<Result<(), CommentDbError>, DbFailure>) -> (r: Result<
    OkResponse,
    ApiError,
>)
    ensures
        match done {
            Err(_) => error::api_refused(r, ProblemCode::Internal),
            Ok(Err(err)) => r matches Err(e) && e@ == comment_problem(err),
            Ok(Ok(_)) => r == Ok::<_, ApiError>(OkResponse { ok: true }),
        },
{
    match comment_result(done) {
        Err(e) => Err(e),
        Ok(_) => Ok(OkResponse { ok: true }),
    }
}

/// The comments of a document of a project are not served: they are not found, whoever has signed
/// in.
pub fn project_document_comments<T>() -> (r: Result<T, ApiError>)
    ensures
        r matches Err(e) && e@ == comment_problem(CommentDbError::NotFound),
{
    Err(map_comment_error(CommentDbError::NotFound))
}

/// The body of a new comment.
#[derive(Debug)]
pub struct CreateCommentBody {
    pub body: String,
    pub parent_id: Option<Uuid>,
    pub mentioned_user_ids: Option<Vec<Uuid>>,
    pub mentioned_group_ids: Option<Vec<Uuid>>,
}

/// The users that a new comment mentions. Groups cannot be mentioned.
pub fn validate_create_body(body: CreateCommentBody) -> (r: Result<Vec<Uuid>, ApiError>)
    ensures
        if body.mentioned_group_ids matches Some(groups) && groups@.len() > 0 {
            error::api_refused(r, ProblemCode::InvalidInput)
        } else {
            match body.mentioned_user_ids {
                Some(users) => r == Ok::<_, ApiError>(users),
                None => r matches Ok(users) && users@.len() == 0,
            }
        },
{
    if let Some(groups) = &body.mentioned_group_ids {
        if groups.len() > 0 {
            return Err(ApiError::app(ProblemCode::InvalidInput));
        }
    }
    match body.mentioned_user_ids {
        Some(users) => Ok(users),
        None => Ok(Vec::new()),
    }
}

/// A change of a comment has to give a new text.
pub fn patched_body(body: Option<String>) -> (r: Result<String, ApiError>)
    ensures
        match body {
            Some(s) => r == Ok::<_, ApiError>(s),
            None => error::api_refused(r, ProblemCode::InvalidInput),
        },
{
    match body {
        Some(s) => Ok(s),
        None => Err(ApiError::app(ProblemCode::InvalidInput)),
    }
}

/// Charges a new comment to its author.
pub fn comment_limit(limiter: &mut RateLimiter, user_id: Uuid, now: u64) -> (r: Result<
    (),
    AppError,
>)
    requires
        old(limiter).wf(),
    ensures
        final(limiter).wf(),
        rate_limit::charged_once(
            old(limiter)@,
            final(limiter)@,
            "comment-create:"@ + ids::uuid_text(user_id.0),
            COMMENT_CREATE_LIMIT,
            WINDOW,
            now,
            error::told(r),
        ),
{
    let user = user_id.text();
    let key = join2("comment-create:", user.as_str());
    charge(limiter, key.as_str(), COMMENT_CREATE_LIMIT, WINDOW, now)
}

/// How often a comment was given one reaction.
#[derive(Clone, Copy, Debug, PartialEq, Eq, Structural)]
pub struct CommentReactionSummary {
    pub count: i64,
    pub reacted_by_me: bool,
}

/// A comment, as the store keeps it.
#[derive(Debug)]
pub struct CommentRow {
    pub id: Uuid,
    pub workspace_id: Uuid,
    pub document_id: Option<Uuid>,
    pub task_id: Option<Uuid>,
    pub parent_id: Option<Uuid>,
    pub created_by: Option<Uuid>,
    pub body: String,
    pub resolved_at: Option<Timestamp>,
    pub created_at: Timestamp,
    pub updated_at: Timestamp,
}

/// The reactions to a comment, as one reader sees them.
#[derive(Debug)]
pub struct Reactions {
    pub shown: Vec<(String, CommentReactionSummary)>,
    pub other_count: i64,
}

/// A comment as it is answered.
#[derive(Debug)]
pub struct CommentOutput {
    pub id: Uuid,
    pub workspace_id: Uuid,
    pub document_id: Option<Uuid>,
    pub task_id: Option<Uuid>,
    pub parent_id: Option<Uuid>,
    pub created_by: Option<Uuid>,
    pub body: String,
    pub resolved_at: Option<Timestamp>,
    pub reactions: Vec<(String, CommentReactionSummary)>,
    pub other_reaction_count: i64,
    pub created_at: Timestamp,
    pub updated_at: Timestamp,
}

/// A comment as it is answered.
pub open spec fn shown_comment(comment: CommentRow, reactions: Reactions) -> CommentOutput {
    CommentOutput {
        id: comment.id,
        workspace_id: comment.workspace_id,
        document_id: comment.document_id,
        task_id: comment.task_id,
        parent_id: comment.parent_id,
        created_by: comment.created_by,
        body: comment.body,
        resolved_at: comment.resolved_at,
        reactions: reactions.shown,
        other_reaction_count: reactions.other_count,
        created_at: comment.created_at,
        updated_at: comment.updated_at,
    }
}

/// The answer about a comment, with its reactions as its reader sees them.
pub fn comment_to_output(comment: CommentRow, reactions: Reactions) -> (r: CommentOutput)
    ensures
        r == shown_comment(comment, reactions),
{
    CommentOutput {
        id: comment.id,
        workspace_id: comment.workspace_id,
        document_id: comment.document_id,
        task_id: comment.task_id,
        parent_id: comment.parent_id,
        created_by: comment.created_by,
        body: comment.body,
        resolved_at: comment.resolved_at,
        reactions: reactions.shown,
        other_reaction_count: reactions.other_count,
        created_at: comment.created_at,
        updated_at: comment.updated_at,
    }
}

/// What one user is told by this limit does not depend on the requests of another: `comment_limit`
/// answers `b` alike behind a request of `a` and without it.
pub proof fn law_comment_limit_is_one_for_each_user(
    first: &mut RateLimiter,
    second: &mut RateLimiter,
    alone: &mut RateLimiter,
    a: Uuid,
    b: Uuid,
    now: u64,
    later: u64,
    told_a: Result<(), AppError>,
    told_b: Result<(), AppError>,
    told_alone: Result<(), AppError>,
)
    requires
        first.wf(),
        second.wf(),
        alone.wf(),
        a != b,
        old(first)@.dom().len() < rate_limit::MAX_KEYS,
        old(second)@ == final(first)@,
        old(alone)@ == old(first)@,
        call_ensures(comment_limit, (first, a, now), told_a),
        call_ensures(comment_limit, (second, b, later), told_b),
        call_ensures(comment_limit, (alone, b, later), told_alone),
    ensures
        told_b is Ok <==> told_alone is Ok,
        error::told(told_b) == error::told(told_alone),
{
    ids::law_uuid_texts_are_apart(a.0, b.0);
    rate_limit::lemma_keys_apart("comment-create:"@, ids::uuid_text(a.0), ids::uuid_text(b.0));
    rate_limit::lemma_other_keys_stay(
        old(first)@,
        final(first)@,
        "comment-create:"@ + ids::uuid_text(a.0),
        COMMENT_CREATE_LIMIT,
        WINDOW,
        now,
        "comment-create:"@ + ids::uuid_text(b.0),
    );
}

/// Each value of a comment is shown under the name that it is kept by, with its own reactions.
pub proof fn law_comment_is_shown_as_kept(comment: CommentRow, reactions: Reactions)
    ensures
        ({
            let out = shown_comment(comment, reactions);
            &&& out.id == comment.id
            &&& out.workspace_id == comment.workspace_id
            &&& out.document_id == comment.document_id
            &&& out.task_id == comment.task_id
            &&& out.parent_id == comment.parent_id
            &&& out.created_by == comment.created_by
            &&& out.body == comment.body
            &&& out.resolved_at == comment.resolved_at
            &&& out.created_at == comment.created_at
            &&& out.updated_at == comment.updated_at
            &&& out.reactions == reactions.shown
            &&& out.other_reaction_count == reactions.other_count
        }),
{
}

/// A comment tells the users that were named, in their order, and it may not name groups.
pub proof fn law_comment_tells_the_named_users(
    body: CreateCommentBody,
    r: Result<Vec<Uuid>, ApiError>,
)
    requires
        call_ensures(validate_create_body, (body,), r),
    ensures
        r is Ok <==> body.mentioned_group_ids is None || body.mentioned_group_ids->0@.len() == 0,
        r matches Ok(users) ==> users@ == match body.mentioned_user_ids {
            Some(named) => named@,
            None => Seq::empty(),
        },
{
    if let Ok(users) = r {
        if body.mentioned_user_ids is None {
            assert(users@ =~= Seq::<Uuid>::empty());
        }
    }
}

} // verus!
