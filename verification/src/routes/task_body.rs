//! The contents of tasks, and the documents that tasks come from.

use vstd::prelude::*;
use vstd::string::*;
use crate::answer;
use crate::answer::{Answer, answer_all};
use crate::error;
use crate::error::{ApiError, DbFailure, ProblemCode};
use crate::ids;
use crate::ids::{Uuid, text_of};
use crate::json;
use crate::json::{Json, JsonView};
use crate::routes::document_body;
use crate::routes::document_body::{collab_unavailable, invalid_body};
use crate::routes::documents;
use crate::routes::documents::{copy_text, too_large};
use crate::routes::tasks;
use crate::routes::tasks::{TaskDbError, map_task_db_error};

verus! {

/// The origins of a page where a query names no number, and the most of a page.
pub const ORIGIN_PAGE: i64 = 50;

pub const ORIGIN_PAGE_MAX: i64 = 100;

/// Why contents were not turned into their stored form.
#[derive(Clone, Copy, Debug, PartialEq, Eq, Structural)]
pub enum SeedError {
    InvalidInput,
    TooLarge,
    Unavailable,
    Failed,
}

pub fn map_seed(err: SeedError) -> (r: ApiError)
    ensures
        r@ == match err {
            SeedError::InvalidInput => document_body::body_invalid(),
            SeedError::TooLarge => documents::body_too_large(),
            SeedError::Unavailable => document_body::collab_missing(),
            SeedError::Failed => error::api_problem(ProblemCode::Internal),
        },
{
    match err {
        SeedError::InvalidInput => invalid_body(),
        SeedError::TooLarge => too_large(),
        SeedError::Unavailable => collab_unavailable(),
        SeedError::Failed => ApiError::app(ProblemCode::Internal),
    }
}

/// Why the store does not let a body be written.
#[derive(Clone, Copy, Debug, PartialEq, Eq, Structural)]
pub enum RevisionDbError {
    NotFound,
    Forbidden,
    TaskArchived,
    ProjectArchived,
}

/// The problem that such a refusal ends in.
pub open spec fn revision_access_code(err: RevisionDbError) -> ProblemCode {
    match err {
        RevisionDbError::NotFound => ProblemCode::NotFound,
        RevisionDbError::Forbidden => ProblemCode::NotFound,
        RevisionDbError::TaskArchived => ProblemCode::TaskArchived,
        RevisionDbError::ProjectArchived => ProblemCode::ProjectArchived,
    }
}

/// Whether the store lets the body of a task be written.
pub fn revision_access<T>(found: Result<Result<T, RevisionDbError>, DbFailure>) -> (r: Result<
    T,
    ApiError,
>)
    ensures
        match found {
            Err(_) => error::api_refused(r, ProblemCode::Internal),
            Ok(Err(err)) => error::api_refused(r, revision_access_code(err)),
            Ok(Ok(t)) => r == Ok::<T, ApiError>(t),
        },
{
    match found {
        Err(_) => Err(ApiError::app(ProblemCode::Internal)),
        Ok(Err(RevisionDbError::NotFound)) => Err(ApiError::app(ProblemCode::NotFound)),
        Ok(Err(RevisionDbError::Forbidden)) => Err(ApiError::app(ProblemCode::NotFound)),
        Ok(Err(RevisionDbError::TaskArchived)) => Err(ApiError::app(ProblemCode::TaskArchived)),
        Ok(Err(RevisionDbError::ProjectArchived)) => Err(
            ApiError::app(ProblemCode::ProjectArchived),
        ),
        Ok(Ok(t)) => Ok(t),
    }
}

/// Why the store refused something about where a task comes from.
#[derive(Clone, Copy, Debug, PartialEq, Eq, Structural)]
pub enum TaskOriginDbError {
    NotFound,
    Forbidden,
    /// The request was made before, with other contents.
    RequestMismatch,
    Task(TaskDbError),
}

/// The problem that such a refusal ends in.
pub open spec fn origin_problem(err: TaskOriginDbError) -> error::ApiErrorView {
    match err {
        TaskOriginDbError::NotFound => error::api_problem(ProblemCode::NotFound),
        TaskOriginDbError::Forbidden => error::api_problem(ProblemCode::NotFound),
        TaskOriginDbError::RequestMismatch => error::coded_problem(
            409,
            "document_version_mismatch"@,
            "document version mismatch"@,
        ),
        TaskOriginDbError::Task(err) => tasks::task_problem(err),
    }
}

pub fn map_origin_error(err: TaskOriginDbError) -> (r: ApiError)
    ensures
        r@ == origin_problem(err),
{
    match err {
        TaskOriginDbError::NotFound => ApiError::app(ProblemCode::NotFound),
        TaskOriginDbError::Forbidden => ApiError::app(ProblemCode::NotFound),
        TaskOriginDbError::RequestMismatch => ApiError::coded(
            409,
            "document_version_mismatch",
            "document version mismatch",
        ),
        TaskOriginDbError::Task(err) => map_task_db_error(err),
    }
}

/// What the store made of a request about where a task comes from.
pub fn origin_result<T>(found: Result<Result<T, TaskOriginDbError>, DbFailure>) -> (r: Result<
    T,
    ApiError,
>)
    ensures
        match found {
            Err(_) => error::api_refused(r, ProblemCode::Internal),
            Ok(Err(err)) => r matches Err(e) && e@ == origin_problem(err),
            Ok(Ok(t)) => r == Ok::<T, ApiError>(t),
        },
{
    match found {
        Err(_) => Err(ApiError::app(ProblemCode::Internal)),
        Ok(Err(err)) => Err(map_origin_error(err)),
        Ok(Ok(t)) => Ok(t),
    }
}

/// A task to be created, as a request writes it.
#[derive(Debug)]
pub struct CreateTaskBody {
    pub title: String,
    pub task_type: String,
    pub priority: String,
    pub status_id: Option<Uuid>,
    pub start_date: Option<String>,
    pub due_date: Option<String>,
    pub parent_id: Option<Uuid>,
    pub milestone_id: Option<Uuid>,
    pub recurrence: Option<Json>,
}

/// A text as JSON, or null.
pub open spec fn text_json(o: Option<Seq<char>>) -> JsonView {
    match o {
        Some(s) => JsonView::Text(s),
        None => JsonView::Null,
    }
}

/// The task in the form in which two requests are compared: every member, null where it is
/// missing.
pub open spec fn normal_task(body: CreateTaskBody) -> Seq<(Seq<char>, JsonView)> {
    seq![
        ("title"@, JsonView::Text(body.title@)),
        ("type"@, JsonView::Text(body.task_type@)),
        ("priority"@, JsonView::Text(body.priority@)),
        ("statusId"@, text_json(ids::opt_text(body.status_id))),
        ("startDate"@, text_json(error::text_view(body.start_date))),
        ("dueDate"@, text_json(error::text_view(body.due_date))),
        ("parentId"@, text_json(ids::opt_text(body.parent_id))),
        ("milestoneId"@, text_json(ids::opt_text(body.milestone_id))),
        (
            "recurrence"@,
            match body.recurrence {
                Some(j) => j@,
                None => JsonView::Null,
            },
        ),
    ]
}

fn json_text(o: Option<String>) -> (r: Json)
    ensures
        r@ == text_json(error::text_view(o)),
{
    match o {
        Some(s) => Json::Text(s),
        None => Json::Null,
    }
}

/// The task in the form in which two requests are compared.
pub fn normalized_task_input(body: &CreateTaskBody) -> (r: Json)
    ensures
        r@ == JsonView::Object(normal_task(*body)),
{
    let recurrence: Json = match &body.recurrence {
        Some(j) => json::copy_json(j),
        None => Json::Null,
    };
    let mut members: Vec<(String, Json)> = Vec::new();
    members.push(("title".to_owned(), Json::Text(body.title.clone())));
    members.push(("type".to_owned(), Json::Text(body.task_type.clone())));
    members.push(("priority".to_owned(), Json::Text(body.priority.clone())));
    members.push(("statusId".to_owned(), json_text(text_of(body.status_id))));
    members.push(("startDate".to_owned(), json_text(copy_text(&body.start_date))));
    members.push(("dueDate".to_owned(), json_text(copy_text(&body.due_date))));
    members.push(("parentId".to_owned(), json_text(text_of(body.parent_id))));
    members.push(("milestoneId".to_owned(), json_text(text_of(body.milestone_id))));
    members.push(("recurrence".to_owned(), recurrence));
    proof {
        json::lemma_object_view(members);
        assert(json::members_view(members@) =~= normal_task(*body));
    }
    Json::Object(members)
}

/// Checks a task that comes from a document: the place in the document is not too long, and the
/// rules for tasks hold. `read` is whether the body could be read, `task_read` whether the task in
/// it could.
pub fn check_document_task(
    read: bool,
    anchor: Option<&str>,
    max_anchor: usize,
    task_read: bool,
    task_ok: bool,
) -> (r: Result<(), ApiError>)
    ensures
        r is Ok <==> read && (anchor matches Some(a) ==> a@.len() <= max_anchor) && task_read
            && task_ok,
        r is Err ==> error::api_refused(r, ProblemCode::InvalidInput),
{
    if !read {
        return Err(ApiError::app(ProblemCode::InvalidInput));
    }
    if let Some(a) = anchor {
        if a.unicode_len() > max_anchor {
            return Err(ApiError::app(ProblemCode::InvalidInput));
        }
    }
    if !task_read || !task_ok {
        return Err(ApiError::app(ProblemCode::InvalidInput));
    }
    Ok(())
}

/// The answer to a task that comes from a document; a request that is made again is answered as
/// the first one.
pub fn document_task_created(
    created: Result<Result<Uuid, TaskOriginDbError>, DbFailure>,
) -> (r: Result<(u16, String), ApiError>)
    ensures
        match created {
            Err(_) => error::api_refused(r, ProblemCode::Internal),
            Ok(Err(err)) => r matches Err(e) && e@ == origin_problem(err),
            Ok(Ok(id)) => r matches Ok(reply) && reply.0 == 201 && reply.1@ == ids::uuid_text(
                id.0,
            ),
        },
{
    match origin_result(created) {
        Err(e) => Err(e),
        Ok(id) => Ok((201, id.text())),
    }
}

/// The number of origins that a query asks for.
pub fn origin_limit(limit: Option<i64>) -> (r: Result<i64, ApiError>)
    ensures
        ({
            let n = match limit {
                Some(n) => n,
                None => ORIGIN_PAGE,
            };
            if 1 <= n <= ORIGIN_PAGE_MAX {
                r == Ok::<_, ApiError>(n)
            } else {
                error::api_refused(r, ProblemCode::InvalidInput)
            }
        }),
{
    let n: i64 = match limit {
        Some(n) => n,
        None => ORIGIN_PAGE,
    };
    if n < 1 || n > ORIGIN_PAGE_MAX {
        Err(ApiError::app(ProblemCode::InvalidInput))
    } else {
        Ok(n)
    }
}

/// A document that a task comes from, as the store keeps it.
#[derive(Debug)]
pub struct TaskOriginItem {
    pub task_id: Uuid,
    pub document_id: Uuid,
    pub task_display_id: Option<String>,
    pub document_display_id: Option<String>,
    pub task_title: String,
    pub document_title: String,
    pub anchor: Option<String>,
}

/// A document that a task comes from as it is answered.
#[derive(Debug)]
pub struct TaskOriginItemOutput {
    pub task_id: String,
    pub document_id: String,
    pub task_display_id: Option<String>,
    pub document_display_id: Option<String>,
    pub task_title: String,
    pub document_title: String,
    pub anchor: Option<String>,
}

impl Answer for TaskOriginItem {
    type Out = TaskOriginItemOutput;

    open spec fn answered(&self, out: &TaskOriginItemOutput) -> bool {
        &&& out.task_id@ == ids::uuid_text(self.task_id.0)
        &&& out.document_id@ == ids::uuid_text(self.document_id.0)
        &&& error::text_view(out.task_display_id) == error::text_view(self.task_display_id)
        &&& error::text_view(out.document_display_id) == error::text_view(
            self.document_display_id,
        )
        &&& out.task_title@ == self.task_title@
        &&& out.document_title@ == self.document_title@
        &&& error::text_view(out.anchor) == error::text_view(self.anchor)
    }

    fn answer(&self) -> (r: TaskOriginItemOutput) {
        TaskOriginItemOutput {
            task_id: self.task_id.text(),
            document_id: self.document_id.text(),
            task_display_id: copy_text(&self.task_display_id),
            document_display_id: copy_text(&self.document_display_id),
            task_title: self.task_title.clone(),
            document_title: self.document_title.clone(),
            anchor: copy_text(&self.anchor),
        }
    }
}

/// A page of origins, as the store hands it out.
#[derive(Debug)]
pub struct TaskOriginPage {
    pub items: Vec<TaskOriginItem>,
    pub next_cursor: Option<Uuid>,
}

/// A page of origins as it is answered.
#[derive(Debug)]
pub struct TaskOriginListResponse {
    pub count: usize,
    pub items: Vec<TaskOriginItemOutput>,
    pub next_cursor: Option<String>,
}

impl Answer for TaskOriginPage {
    type Out = TaskOriginListResponse;

    open spec fn answered(&self, out: &TaskOriginListResponse) -> bool {
        &&& out.count == self.items@.len()
        &&& answer::all_answered(self.items@, out.items@)
        &&& error::text_view(out.next_cursor) == ids::opt_text(self.next_cursor)
    }

    fn answer(&self) -> (r: TaskOriginListResponse) {
        TaskOriginListResponse {
            count: self.items.len(),
            items: answer_all(self.items.as_slice()),
            next_cursor: text_of(self.next_cursor),
        }
    }
}

/// A task that is to be made is told under the names of its parts: each member holds the part of
/// its own name, or null where there is none.
pub proof fn law_each_member_holds_its_part(body: CreateTaskBody)
    ensures
        json::find(normal_task(body), "title"@) == Some(JsonView::Text(body.title@)),
        json::find(normal_task(body), "type"@) == Some(JsonView::Text(body.task_type@)),
        json::find(normal_task(body), "priority"@) == Some(JsonView::Text(body.priority@)),
        json::find(normal_task(body), "statusId"@) == Some(
            match body.status_id {
                Some(id) => JsonView::Text(ids::uuid_text(id.0)),
                None => JsonView::Null,
            },
        ),
        json::find(normal_task(body), "startDate"@) == Some(
            match body.start_date {
                Some(d) => JsonView::Text(d@),
                None => JsonView::Null,
            },
        ),
        json::find(normal_task(body), "dueDate"@) == Some(
            match body.due_date {
                Some(d) => JsonView::Text(d@),
                None => JsonView::Null,
            },
        ),
        json::find(normal_task(body), "parentId"@) == Some(
            match body.parent_id {
                Some(id) => JsonView::Text(ids::uuid_text(id.0)),
                None => JsonView::Null,
            },
        ),
        json::find(normal_task(body), "milestoneId"@) == Some(
            match body.milestone_id {
                Some(id) => JsonView::Text(ids::uuid_text(id.0)),
                None => JsonView::Null,
            },
        ),
        json::find(normal_task(body), "recurrence"@) == Some(
            match body.recurrence {
                Some(j) => j@,
                None => JsonView::Null,
            },
        ),
{
    reveal_strlit("title");
    reveal_strlit("type");
    reveal_strlit("priority");
    reveal_strlit("statusId");
    reveal_strlit("startDate");
    reveal_strlit("dueDate");
    reveal_strlit("parentId");
    reveal_strlit("milestoneId");
    reveal_strlit("recurrence");
    let m = normal_task(body);
    assert(m[0].0 == "title"@ && m[0].0.len() == 5);
    assert(m[1].0 == "type"@ && m[1].0.len() == 4);
    assert(m[2].0 == "priority"@ && m[2].0.len() == 8);
    assert(m[3].0 == "statusId"@ && m[3].0.len() == 8);
    assert(m[4].0 == "startDate"@ && m[4].0.len() == 9);
    assert(m[5].0 == "dueDate"@ && m[5].0.len() == 7);
    assert(m[6].0 == "parentId"@ && m[6].0.len() == 8);
    assert(m[7].0 == "milestoneId"@ && m[7].0.len() == 11);
    assert(m[8].0 == "recurrence"@ && m[8].0.len() == 10);
    assert(m[2].0[0] == 'p' && m[2].0[1] == 'r');
    assert(m[3].0[0] == 's');
    assert(m[6].0[0] == 'p' && m[6].0[1] == 'a');
    lemma_found_at(m, 0);
    lemma_found_at(m, 1);
    lemma_found_at(m, 2);
    lemma_found_at(m, 3);
    lemma_found_at(m, 4);
    lemma_found_at(m, 5);
    lemma_found_at(m, 6);
    lemma_found_at(m, 7);
    lemma_found_at(m, 8);
}

/// A member whose name no earlier one has is found.
proof fn lemma_found_at(m: Seq<(Seq<char>, JsonView)>, k: int)
    requires
        0 <= k < m.len(),
        forall|j: int| 0 <= j < k ==> (#[trigger] m[j]).0 != m[k].0,
    ensures
        json::find(m, m[k].0) == Some(m[k].1),
{
    json::law_first_member_is_found(m, m[k].0);
    if let Some(value) = json::find(m, m[k].0) {
        let i = choose|i: int|
            0 <= i < m.len() && #[trigger] m[i] == (m[k].0, value) && forall|j: int|
                0 <= j < i ==> (#[trigger] m[j]).0 != m[k].0;
        if i < k {
            assert(m[i].0 != m[k].0);
        } else if k < i {
            assert(m[k].0 != m[k].0);
        }
    } else {
        assert(m[k].0 != m[k].0);
    }
}

/// Each value of a task origin item is answered under the name that it is kept by.
pub proof fn law_task_origin_item_is_answered_as_kept(
    row: TaskOriginItem,
    out: TaskOriginItemOutput,
)
    requires
        row.answered(&out),
    ensures
        ids::uuid_of(out.task_id@) == Some(row.task_id.0),
        ids::uuid_of(out.document_id@) == Some(row.document_id.0),
        error::text_view(out.task_display_id) == error::text_view(row.task_display_id),
        error::text_view(out.document_display_id) == error::text_view( row.document_display_id, ),
        out.task_title@ == row.task_title@,
        out.document_title@ == row.document_title@,
        error::text_view(out.anchor) == error::text_view(row.anchor),
{
    ids::law_uuid_round_trip(row.task_id.0);
    ids::law_uuid_round_trip(row.document_id.0);
}

/// Each value of a task origin page is answered under the name that it is kept by.
pub proof fn law_task_origin_page_is_answered_as_kept(
    row: TaskOriginPage,
    out: TaskOriginListResponse,
)
    requires
        row.answered(&out),
    ensures
        out.count == row.items@.len(),
        answer::all_answered(row.items@, out.items@),
        match (row.next_cursor, out.next_cursor) {
            (Some(id), Some(s)) => ids::uuid_of(s@) == Some(id.0),
            (None, None) => true,
            _ => false,
        },
{
    if let Some(id) = row.next_cursor {
        ids::law_uuid_round_trip(id.0);
    }
}

} // verus!
