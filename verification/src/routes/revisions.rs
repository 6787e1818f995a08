//! The revisions of documents and tasks.

use vstd::prelude::*;
use crate::answer;
use crate::answer::{Answer, answer_all};
use crate::authz::{Access, ApiTokenScope};
use crate::error;
use crate::error::{ApiError, ApiErrorView, AppError, DbFailure, ProblemCode};
use crate::ids;
use crate::ids::{Uuid, text_of};
use crate::json::{Json, copy_json};
use crate::routes::document_body;
use crate::routes::document_body::collab_unavailable;
use crate::routes::documents::copy_text;
use crate::routes::task_body;
use crate::routes::task_body::{RevisionDbError, revision_access};
use crate::store::ApiRefusal;
use crate::time::Timestamp;

verus! {

/// The revisions of a page where a query names no number, and the most of a page.
pub const REVISION_PAGE: i64 = 50;

pub const REVISION_PAGE_MAX: i64 = 100;

/// What has revisions.
#[derive(Clone, Copy, Debug, PartialEq, Eq, Structural)]
pub enum RevisionTarget {
    Document(Uuid),
    Task(Uuid),
}

/// How one who reads or writes revisions is known.
#[derive(Clone, Copy, Debug, PartialEq, Eq, Structural)]
pub enum RevisionAccess {
    /// By a session in a cookie; a token is refused.
    Cookie,
    /// By what the route asks.
    Route(Access),
}

/// How one who reads or writes the revisions of this is known: those of a task are open to tokens
/// with the scope for it, those of a document only to sessions.
pub fn revision_credential(target: RevisionTarget, write: bool) -> (r: RevisionAccess)
    ensures
        r == match target {
            RevisionTarget::Document(_) => RevisionAccess::Cookie,
            RevisionTarget::Task(_) => RevisionAccess::Route(
                Access::Scope(
                    if write {
                        ApiTokenScope::TasksWrite
                    } else {
                        ApiTokenScope::TasksRead
                    },
                ),
            ),
        },
{
    match target {
        RevisionTarget::Document(_) => RevisionAccess::Cookie,
        RevisionTarget::Task(_) => if write {
            RevisionAccess::Route(Access::Scope(ApiTokenScope::TasksWrite))
        } else {
            RevisionAccess::Route(Access::Scope(ApiTokenScope::TasksRead))
        },
    }
}

impl ApiRefusal for RevisionDbError {
    open spec fn problem(&self) -> ApiErrorView {
        error::api_problem(task_body::revision_access_code(*self))
    }

    fn refusal(&self) -> (r: ApiError) {
        map_revision_error(*self)
    }
}

pub fn map_revision_error(err: RevisionDbError) -> (r: ApiError)
    ensures
        r@ == error::api_problem(task_body::revision_access_code(err)),
{
    match err {
        RevisionDbError::NotFound | RevisionDbError::Forbidden => ApiError::app(
            ProblemCode::NotFound,
        ),
        RevisionDbError::TaskArchived => ApiError::app(ProblemCode::TaskArchived),
        RevisionDbError::ProjectArchived => ApiError::app(ProblemCode::ProjectArchived),
    }
}

/// The page of revisions that a query asks for. `cursor_given` is whether it has a cursor,
/// `decoded` where that one stands, if it is one.
pub fn list_input<C>(limit: Option<i64>, cursor_given: bool, decoded: Option<C>) -> (r: Result<
    (i64, Option<C>),
    ApiError,
>)
    ensures
        ({
            let asked = match limit {
                Some(n) => n,
                None => REVISION_PAGE,
            };
            if asked < 1 || asked > REVISION_PAGE_MAX || (cursor_given && decoded is None) {
                error::api_refused(r, ProblemCode::InvalidInput)
            } else {
                r == Ok::<_, ApiError>(
                    (
                        asked,
                        if cursor_given {
                            decoded
                        } else {
                            None
                        },
                    ),
                )
            }
        }),
{
    let asked: i64 = match limit {
        Some(n) => n,
        None => REVISION_PAGE,
    };
    if asked < 1 || asked > REVISION_PAGE_MAX {
        return Err(ApiError::app(ProblemCode::InvalidInput));
    }
    if !cursor_given {
        return Ok((asked, None));
    }
    match decoded {
        Some(c) => Ok((asked, Some(c))),
        None => Err(ApiError::app(ProblemCode::InvalidInput)),
    }
}

/// What is known of a revision, as the store keeps it.
#[derive(Debug)]
pub struct RevisionMeta {
    pub id: Uuid,
    pub target_kind: String,
    pub target_id: Uuid,
    pub reason: String,
    pub created_by: Option<Uuid>,
    pub created_at: Timestamp,
}

/// What is known of a revision as it is answered.
#[derive(Debug)]
pub struct RevisionMetaResponse {
    pub id: String,
    pub target_kind: String,
    pub target_id: String,
    pub reason: String,
    pub created_by: Option<String>,
    pub created_at: Timestamp,
}

impl Answer for RevisionMeta {
    type Out = RevisionMetaResponse;

    open spec fn answered(&self, out: &RevisionMetaResponse) -> bool {
        &&& out.id@ == ids::uuid_text(self.id.0)
        &&& out.target_kind@ == self.target_kind@
        &&& out.target_id@ == ids::uuid_text(self.target_id.0)
        &&& out.reason@ == self.reason@
        &&& error::text_view(out.created_by) == ids::opt_text(self.created_by)
        &&& out.created_at == self.created_at
    }

    fn answer(&self) -> (r: RevisionMetaResponse) {
        RevisionMetaResponse {
            id: self.id.text(),
            target_kind: self.target_kind.clone(),
            target_id: self.target_id.text(),
            reason: self.reason.clone(),
            created_by: text_of(self.created_by),
            created_at: self.created_at,
        }
    }
}

/// A page of revisions, as the store hands it out.
#[derive(Debug)]
pub struct RevisionPage {
    pub items: Vec<RevisionMeta>,
    pub next_cursor: Option<String>,
}

/// A page of revisions as it is answered.
#[derive(Debug)]
pub struct RevisionListResponse {
    pub items: Vec<RevisionMetaResponse>,
    pub next_cursor: Option<String>,
}

impl Answer for RevisionPage {
    type Out = RevisionListResponse;

    open spec fn answered(&self, out: &RevisionListResponse) -> bool {
        answer::all_answered(self.items@, out.items@) && error::text_view(out.next_cursor)
            == error::text_view(self.next_cursor)
    }

    fn answer(&self) -> (r: RevisionListResponse) {
        RevisionListResponse {
            items: answer_all(self.items.as_slice()),
            next_cursor: copy_text(&self.next_cursor),
        }
    }
}

/// A revision, as the store keeps it.
#[derive(Debug)]
pub struct RevisionDetail {
    pub meta: RevisionMeta,
    pub content_json: Json,
    pub y_snapshot: Vec<u8>,
}

/// A revision as it is answered. The bytes of the snapshot are written out where the answer is.
#[derive(Debug)]
pub struct RevisionDetailResponse {
    pub meta: RevisionMetaResponse,
    pub content_json: Json,
    pub y_snapshot: Vec<u8>,
}

impl Answer for RevisionDetail {
    type Out = RevisionDetailResponse;

    open spec fn answered(&self, out: &RevisionDetailResponse) -> bool {
        &&& self.meta.answered(&out.meta)
        &&& out.content_json@ == self.content_json@
        &&& out.y_snapshot@ == self.y_snapshot@
    }

    fn answer(&self) -> (r: RevisionDetailResponse) {
        let y_snapshot = self.y_snapshot.clone();
        assert(y_snapshot@ =~= self.y_snapshot@);
        RevisionDetailResponse {
            meta: self.meta.answer(),
            content_json: copy_json(&self.content_json),
            y_snapshot,
        }
    }
}

/// What a revision is made of.
#[derive(Debug)]
pub struct CapturedRevision {
    pub y_snapshot: Vec<u8>,
    pub content_json: Json,
}

/// What is done next to capture a revision.
#[derive(Debug)]
pub enum CaptureStep {
    /// The live document gave it.
    Captured(CapturedRevision),
    /// What is kept is read and turned into it.
    Offline,
}

/// What is done once the live document was asked: `live` is none where there is no live one, and
/// within it is none where it could not give a revision.
pub fn capture_live(live: Option<Option<CapturedRevision>>) -> (r: Result<CaptureStep, ApiError>)
    ensures
        match live {
            None => r == Ok::<_, ApiError>(CaptureStep::Offline),
            Some(Some(c)) => r == Ok::<_, ApiError>(CaptureStep::Captured(c)),
            Some(None) => r matches Err(e) && e@ == document_body::collab_missing(),
        },
{
    match live {
        None => Ok(CaptureStep::Offline),
        Some(Some(c)) => Ok(CaptureStep::Captured(c)),
        Some(None) => Err(collab_unavailable()),
    }
}

/// What is kept of a document or a task, where it can be turned into a revision: `engine` is
/// whether what does that is set up.
pub fn capture_source<T>(found: Result<Result<T, RevisionDbError>, DbFailure>, engine: bool) -> (r:
    Result<T, ApiError>)
    ensures
        match found {
            Err(_) => error::api_refused(r, ProblemCode::Internal),
            Ok(Err(err)) => error::api_refused(r, task_body::revision_access_code(err)),
            Ok(Ok(t)) => if engine {
                r == Ok::<T, ApiError>(t)
            } else {
                r matches Err(e) && e@ == document_body::collab_missing()
            },
        },
{
    match revision_access(found) {
        Err(e) => Err(e),
        Ok(t) => if engine {
            Ok(t)
        } else {
            Err(collab_unavailable())
        },
    }
}

/// What the engine captured of a stored document or task, where it could.
pub fn captured<T>(made: Option<T>) -> (r: Result<T, ApiError>)
    ensures
        match made {
            Some(t) => r == Ok::<T, ApiError>(t),
            None => r matches Err(e) && e@ == document_body::collab_missing(),
        },
{
    match made {
        Some(t) => Ok(t),
        None => Err(collab_unavailable()),
    }
}

/// What a revision is stored with.
#[derive(Debug)]
pub struct CreateRevisionInput {
    pub y_snapshot: Vec<u8>,
    pub content_json: Json,
    pub text: String,
    pub reason: String,
}

/// What a revision that a user asked for is stored with: what was captured, and its text. `text`
/// is missing where none could be made of the contents.
pub fn revision_input(captured: CapturedRevision, text: Option<String>) -> (r: Result<
    CreateRevisionInput,
    ApiError,
>)
    ensures
        match text {
            None => r matches Err(e) && e@ == document_body::collab_missing(),
            Some(t) => r matches Ok(input) && {
                &&& input.y_snapshot == captured.y_snapshot
                &&& input.content_json == captured.content_json
                &&& input.text == t
                &&& input.reason@ == "manual"@
            },
        },
{
    match text {
        None => Err(collab_unavailable()),
        Some(text) => Ok(
            CreateRevisionInput {
                y_snapshot: captured.y_snapshot,
                content_json: captured.content_json,
                text,
                reason: "manual".to_owned(),
            },
        ),
    }
}

/// The answer to the making of a revision: its id.
pub fn revision_created(done: Result<Result<Uuid, RevisionDbError>, DbFailure>) -> (r: Result<
    String,
    ApiError,
>)
    ensures
        match done {
            Err(_) => error::api_refused(r, ProblemCode::Internal),
            Ok(Err(err)) => error::api_refused(r, task_body::revision_access_code(err)),
            Ok(Ok(id)) => r matches Ok(s) && s@ == ids::uuid_text(id.0),
        },
{
    match revision_access(done) {
        Err(e) => Err(e),
        Ok(id) => Ok(id.text()),
    }
}

/// The body of a request to restore a revision may be empty, or has to be one. `parsed` is
/// whether it is.
pub fn restore_body(body: &[u8], parsed: bool) -> (r: Result<(), AppError>)
    ensures
        r is Ok <==> body@.len() == 0 || parsed,
        r is Err ==> error::refused(r, ProblemCode::InvalidInput),
{
    if body.len() == 0 || parsed {
        Ok(())
    } else {
        Err(AppError::from_code(ProblemCode::InvalidInput))
    }
}

/// What came of the restoring of a revision.
#[derive(Clone, Copy, Debug, PartialEq, Eq, Structural)]
pub enum RestoreOutcome {
    Restored,
    Rejected,
    Unavailable,
    TimedOut,
    /// There are no live documents here.
    NoHub,
}

/// The answer to the restoring of a revision.
#[derive(Clone, Copy, Debug, PartialEq, Eq, Structural)]
pub struct RevisionRestoreResponse {
    pub restored: bool,
}

/// The answer to the restoring of a revision.
pub fn restore_reply(outcome: RestoreOutcome) -> (r: Result<RevisionRestoreResponse, ApiError>)
    ensures
        match outcome {
            RestoreOutcome::Restored => r == Ok::<_, ApiError>(
                RevisionRestoreResponse { restored: true },
            ),
            RestoreOutcome::Rejected => error::api_refused(r, ProblemCode::RestoreRejected),
            RestoreOutcome::TimedOut => error::api_refused(r, ProblemCode::CollabTimeoutRetry),
            RestoreOutcome::Unavailable | RestoreOutcome::NoHub => r matches Err(e) && e@
                == document_body::collab_missing(),
        },
{
    match outcome {
        RestoreOutcome::Restored => Ok(RevisionRestoreResponse { restored: true }),
        RestoreOutcome::Rejected => Err(ApiError::app(ProblemCode::RestoreRejected)),
        RestoreOutcome::TimedOut => Err(ApiError::app(ProblemCode::CollabTimeoutRetry)),
        RestoreOutcome::Unavailable | RestoreOutcome::NoHub => Err(collab_unavailable()),
    }
}

/// Each value of a revision meta is answered under the name that it is kept by.
pub proof fn law_revision_meta_is_answered_as_kept(row: RevisionMeta, out: RevisionMetaResponse)
    requires
        row.answered(&out),
    ensures
        ids::uuid_of(out.id@) == Some(row.id.0),
        out.target_kind@ == row.target_kind@,
        ids::uuid_of(out.target_id@) == Some(row.target_id.0),
        out.reason@ == row.reason@,
        match (row.created_by, out.created_by) {
            (Some(id), Some(s)) => ids::uuid_of(s@) == Some(id.0),
            (None, None) => true,
            _ => false,
        },
        out.created_at == row.created_at,
{
    ids::law_uuid_round_trip(row.id.0);
    ids::law_uuid_round_trip(row.target_id.0);
    if let Some(id) = row.created_by {
        ids::law_uuid_round_trip(id.0);
    }
}

/// Each value of a revision detail is answered under the name that it is kept by.
pub proof fn law_revision_detail_is_answered_as_kept(
    row: RevisionDetail,
    out: RevisionDetailResponse,
)
    requires
        row.answered(&out),
    ensures
        row.meta.answered(&out.meta),
        out.content_json@ == row.content_json@,
        out.y_snapshot@ == row.y_snapshot@,
{
}

/// Revisions are listed in pages of the size, and behind the cursor, that were asked for; without a
/// size there is a default, and without a cursor they are listed from the start.
pub proof fn law_revisions_are_listed_as_asked<C>(
    limit: Option<i64>,
    cursor_given: bool,
    decoded: Option<C>,
    r: Result<(i64, Option<C>), ApiError>,
)
    requires
        call_ensures(list_input::<C>, (limit, cursor_given, decoded), r),
    ensures
        r is Ok <==> (limit is None || 1 <= limit->0 <= REVISION_PAGE_MAX) && (cursor_given
            ==> decoded is Some) && 1 <= REVISION_PAGE <= REVISION_PAGE_MAX,
        r matches Ok(asked) ==> (limit is Some ==> asked.0 == limit->0) && (limit is None
            ==> asked.0 == REVISION_PAGE) && (cursor_given ==> asked.1 == decoded) && (!cursor_given
            ==> asked.1 is None),
{
}

/// Revisions of documents are for sessions; those of tasks ask a token for the scope to read them,
/// or to change them where something is changed.
pub proof fn law_revisions_belong_to_their_target(
    target: RevisionTarget,
    write: bool,
    r: RevisionAccess,
)
    requires
        call_ensures(revision_credential, (target, write), r),
    ensures
        r is Cookie <==> target is Document,
        target is Task ==> r == RevisionAccess::Route(
            Access::Scope(
                if write {
                    ApiTokenScope::TasksWrite
                } else {
                    ApiTokenScope::TasksRead
                },
            ),
        ),
{
}

/// A revision holds what was captured, with its own text, and is said to be made by hand.
pub proof fn law_revision_holds_what_was_captured(
    captured: CapturedRevision,
    text: String,
    r: Result<CreateRevisionInput, ApiError>,
)
    requires
        call_ensures(revision_input, (captured, Some(text)), r),
    ensures
        r is Ok,
        r->Ok_0.y_snapshot == captured.y_snapshot,
        r->Ok_0.content_json == captured.content_json,
        r->Ok_0.text == text,
        r->Ok_0.reason@ == "manual"@,
{
}

} // verus!
