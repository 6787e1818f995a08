//! Tasks: their contents, their order, what they depend on and what happened to them.

use vstd::prelude::*;
use crate::answer;
use crate::answer::{Answer, answer_all};
use crate::error;
use crate::error::{ApiError, AppError, DbFailure, ProblemCode};
use crate::ids;
use crate::ids::{Uuid, text_of, texts_of};
use crate::json;
use crate::json::{Json, JsonView, copy_json, member};
use crate::routes::account::OkResponse;
use crate::routes::comments;
use crate::routes::comments::{CommentOutput, CommentRow, Reactions, comment_to_output};
use crate::routes::documents::copy_text;
use crate::routes::projects;
use crate::routes::projects::{ProjectDbError, map_project_error};
use crate::text;
use crate::text::same;
use crate::time::{Date, Timestamp};

verus! {

/// The most users and labels that a task is given at once.
pub const MAX_IDS: usize = 50;

/// The bytes that an answer about what happened to a task may have, and those that it has without
/// any item.
pub const ACTIVITY_RESPONSE_BUDGET_BYTES: usize = 1_048_576;

pub const ACTIVITY_ENVELOPE_BYTES: usize = 2048;

/// The items of a page where a query names no number.
pub const ACTIVITY_PAGE: i32 = 50;

/// The query of a list of tasks.
#[derive(Debug)]
pub struct TaskListQueryParams {
    pub query: Option<String>,
    pub archived: Option<String>,
    pub cursor: Option<String>,
    pub limit: Option<i32>,
    pub from: Option<String>,
    pub to: Option<String>,
}

/// The query of a list of what happened to a task.
#[derive(Debug)]
pub struct TaskActivityQueryParams {
    pub filter: Option<String>,
    pub cursor: Option<String>,
    pub limit: Option<i32>,
}

/// Why the store refused something about a task.
#[derive(Clone, Copy, Debug, PartialEq, Eq, Structural)]
pub enum TaskDbError {
    Project(ProjectDbError),
    WorkflowHasNoStatuses,
    DependencyCycle,
    DependencyContradiction,
    TaskCannotBlockItself,
}

/// The problem that a refusal of the store ends in.
pub open spec fn task_problem(err: TaskDbError) -> error::ApiErrorView {
    match err {
        TaskDbError::Project(ProjectDbError::Conflict) => error::coded_problem(
            409,
            "task_hierarchy_violation"@,
            "task hierarchy violation"@,
        ),
        TaskDbError::Project(ProjectDbError::VersionConflict) => error::coded_problem(
            409,
            "document_version_mismatch"@,
            "document version mismatch"@,
        ),
        TaskDbError::Project(ProjectDbError::TaskArchived) => error::coded_problem(
            409,
            "task_archived"@,
            "task archived"@,
        ),
        TaskDbError::Project(ProjectDbError::InvalidAnchor) => error::coded_problem(
            400,
            "anchor_not_in_target_list"@,
            "anchor not in target list"@,
        ),
        TaskDbError::Project(ProjectDbError::StatusNotInWorkflow) => error::coded_problem(
            400,
            "status_not_in_project_workflow"@,
            "status not in project workflow"@,
        ),
        TaskDbError::Project(ProjectDbError::WipLimitExceeded) => error::coded_problem(
            409,
            "wip_limit_exceeded"@,
            "wip limit exceeded"@,
        ),
        TaskDbError::Project(other) => error::ApiErrorView::App(projects::project_problem(other)),
        TaskDbError::WorkflowHasNoStatuses => error::coded_problem(
            400,
            "workflow_has_no_statuses"@,
            "workflow has no statuses"@,
        ),
        TaskDbError::DependencyCycle => error::coded_problem(
            400,
            "dependency_cycle"@,
            "dependency cycle"@,
        ),
        TaskDbError::DependencyContradiction => error::coded_problem(
            400,
            "dependency_contradiction"@,
            "dependency contradiction"@,
        ),
        TaskDbError::TaskCannotBlockItself => error::coded_problem(
            400,
            "task_cannot_block_itself"@,
            "task cannot block itself"@,
        ),
    }
}

pub fn map_task_db_error(err: TaskDbError) -> (r: ApiError)
    ensures
        r@ == task_problem(err),
{
    match err {
        TaskDbError::Project(ProjectDbError::Conflict) => ApiError::coded(
            409,
            "task_hierarchy_violation",
            "task hierarchy violation",
        ),
        TaskDbError::Project(ProjectDbError::VersionConflict) => ApiError::coded(
            409,
            "document_version_mismatch",
            "document version mismatch",
        ),
        TaskDbError::Project(ProjectDbError::TaskArchived) => ApiError::coded(
            409,
            "task_archived",
            "task archived",
        ),
        TaskDbError::Project(ProjectDbError::InvalidAnchor) => ApiError::coded(
            400,
            "anchor_not_in_target_list",
            "anchor not in target list",
        ),
        TaskDbError::Project(ProjectDbError::StatusNotInWorkflow) => ApiError::coded(
            400,
            "status_not_in_project_workflow",
            "status not in project workflow",
        ),
        TaskDbError::Project(ProjectDbError::WipLimitExceeded) => ApiError::coded(
            409,
            "wip_limit_exceeded",
            "wip limit exceeded",
        ),
        TaskDbError::Project(other) => ApiError::App(map_project_error(other)),
        TaskDbError::WorkflowHasNoStatuses => ApiError::coded(
            400,
            "workflow_has_no_statuses",
            "workflow has no statuses",
        ),
        TaskDbError::DependencyCycle => ApiError::coded(
            400,
            "dependency_cycle",
            "dependency cycle",
        ),
        TaskDbError::DependencyContradiction => ApiError::coded(
            400,
            "dependency_contradiction",
            "dependency contradiction",
        ),
        TaskDbError::TaskCannotBlockItself => ApiError::coded(
            400,
            "task_cannot_block_itself",
            "task cannot block itself",
        ),
    }
}

/// What the store made of a request about a task.
pub fn task_result<T>(found: Result<Result<T, TaskDbError>, DbFailure>) -> (r: Result<T, ApiError>)
    ensures
        match found {
            Err(_) => error::api_refused(r, ProblemCode::Internal),
            Ok(Err(err)) => r matches Err(e) && e@ == task_problem(err),
            Ok(Ok(t)) => r == Ok::<T, ApiError>(t),
        },
{
    match found {
        Err(_) => Err(ApiError::app(ProblemCode::Internal)),
        Ok(Err(err)) => Err(map_task_db_error(err)),
        Ok(Ok(t)) => Ok(t),
    }
}

/// The answer to a change that has nothing to show.
pub fn task_done(done: Result<Result<(), TaskDbError>, DbFailure>) -> (r: Result<
    OkResponse,
    ApiError,
>)
    ensures
        match done {
            Err(_) => error::api_refused(r, ProblemCode::Internal),
            Ok(Err(err)) => r matches Err(e) && e@ == task_problem(err),
            Ok(Ok(_)) => r == Ok::<_, ApiError>(OkResponse { ok: true }),
        },
{
    match task_result(done) {
        Err(e) => Err(e),
        Ok(_) => Ok(OkResponse { ok: true }),
    }
}

/// The answer about something of tasks that the store found, created or changed.
pub fn task_reply<T: Answer>(found: Result<Result<T, TaskDbError>, DbFailure>) -> (r: Result<
    T::Out,
    ApiError,
>)
    ensures
        match found {
            Err(_) => error::api_refused(r, ProblemCode::Internal),
            Ok(Err(err)) => r matches Err(e) && e@ == task_problem(err),
            Ok(Ok(row)) => r matches Ok(out) && row.answered(&out),
        },
{
    match task_result(found) {
        Err(e) => Err(e),
        Ok(row) => Ok(row.answer()),
    }
}

/// The answers about things of tasks that the store listed.
pub fn task_list_reply<T: Answer>(found: Result<Result<Vec<T>, TaskDbError>, DbFailure>) -> (r:
    Result<Vec<T::Out>, ApiError>)
    ensures
        match found {
            Err(_) => error::api_refused(r, ProblemCode::Internal),
            Ok(Err(err)) => r matches Err(e) && e@ == task_problem(err),
            Ok(Ok(rows)) => r matches Ok(out) && answer::all_answered(rows@, out@),
        },
{
    match task_result(found) {
        Err(e) => Err(e),
        Ok(rows) => Ok(answer_all(rows.as_slice())),
    }
}

/// Checks a task to be created, by what the rules for tasks say of its parts.
pub fn check_new_task(title_ok: bool, type_ok: bool, priority_ok: bool) -> (r: Result<(), ApiError>)
    ensures
        r is Ok <==> title_ok && type_ok && priority_ok,
        r is Err ==> error::api_refused(r, ProblemCode::InvalidInput),
{
    if title_ok && type_ok && priority_ok {
        Ok(())
    } else {
        Err(ApiError::app(ProblemCode::InvalidInput))
    }
}

/// A task is put before another or behind one, not both.
pub fn check_move(before_id: Option<Uuid>, after_id: Option<Uuid>) -> (r: Result<(), ApiError>)
    ensures
        r is Ok <==> before_id is None || after_id is None,
        r is Err ==> error::api_refused(r, ProblemCode::InvalidInput),
{
    if before_id.is_some() && after_id.is_some() {
        Err(ApiError::app(ProblemCode::InvalidInput))
    } else {
        Ok(())
    }
}

/// How one task waits for another: `known` is the kind of waiting that the request names, where it
/// is one.
pub fn dependency_input<K>(
    lag_days: Option<i32>,
    named: bool,
    known: Option<K>,
) -> (r: Result<Option<K>, ApiError>)
    ensures
        if (lag_days matches Some(lag) && lag < 0) || (named && known is None) {
            error::api_refused(r, ProblemCode::InvalidInput)
        } else {
            r == Ok::<Option<K>, ApiError>(
                if named {
                    known
                } else {
                    None
                },
            )
        },
{
    if let Some(lag) = lag_days {
        if lag < 0 {
            return Err(ApiError::app(ProblemCode::InvalidInput));
        }
    }
    if !named {
        return Ok(None);
    }
    match known {
        Some(k) => Ok(Some(k)),
        None => Err(ApiError::app(ProblemCode::InvalidInput)),
    }
}

/// What becomes of a part of a task.
#[derive(Debug)]
pub enum FieldUpdate<T> {
    Unchanged,
    Clear,
    Replace(T),
}

/// What a member of a change says: missing, null, or a value.
pub open spec fn field_update<T>(value: Option<Option<T>>) -> FieldUpdate<T> {
    match value {
        None => FieldUpdate::Unchanged,
        Some(None) => FieldUpdate::Clear,
        Some(Some(v)) => FieldUpdate::Replace(v),
    }
}

impl<T> FieldUpdate<T> {
    pub fn from_optional(value: Option<Option<T>>) -> (r: Self)
        ensures
            r == field_update(value),
    {
        match value {
            None => FieldUpdate::Unchanged,
            Some(None) => FieldUpdate::Clear,
            Some(Some(v)) => FieldUpdate::Replace(v),
        }
    }
}

/// The dates that a change was made from.
#[derive(Clone, Copy, Debug)]
pub struct ExpectedDates {
    pub start_date: Option<Date>,
    pub due_date: Option<Date>,
    pub due_at: Option<Timestamp>,
}

/// The body of a change of a task. A part that is missing is none; one that is null, none within.
#[derive(Debug)]
pub struct PatchTaskBody {
    pub expected_dates: Option<ExpectedDates>,
    pub task_type: Option<String>,
    pub title: Option<String>,
    pub priority: Option<String>,
    pub status_id: Option<Uuid>,
    pub start_date: Option<Option<Date>>,
    pub due_date: Option<Option<Date>>,
    pub due_at: Option<Option<Timestamp>>,
    pub estimate: Option<Option<String>>,
    pub parent_id: Option<Option<Uuid>>,
    pub recurrence: Option<Option<Json>>,
    pub archived: Option<bool>,
    pub assignee_ids: Option<Vec<Uuid>>,
    pub label_ids: Option<Vec<Uuid>>,
    pub milestone_id: Option<Option<Uuid>>,
}

/// A change of a task.
#[derive(Debug)]
pub struct PatchTaskMetaInput {
    pub expected_dates: Option<ExpectedDates>,
    pub task_type: Option<String>,
    pub title: Option<String>,
    pub priority: Option<String>,
    pub status_id: Option<Uuid>,
    pub start_date: FieldUpdate<Date>,
    pub due_date: FieldUpdate<Date>,
    pub due_at: FieldUpdate<Timestamp>,
    pub estimate: FieldUpdate<String>,
    pub parent_id: FieldUpdate<Uuid>,
    pub recurrence: FieldUpdate<Json>,
    pub archived: Option<bool>,
    pub assignee_ids: Option<Vec<Uuid>>,
    pub label_ids: Option<Vec<Uuid>>,
    pub milestone_id: FieldUpdate<Uuid>,
}

/// What the rules for tasks say of the parts of a change.
#[derive(Clone, Copy, Debug, PartialEq, Eq, Structural)]
pub struct TaskChecks {
    pub title: bool,
    pub task_type: bool,
    pub priority: bool,
    pub estimate: bool,
}

/// A change that changes nothing.
pub open spec fn patch_is_empty(body: PatchTaskBody) -> bool {
    &&& body.expected_dates is None
    &&& body.task_type is None
    &&& body.title is None
    &&& body.priority is None
    &&& body.status_id is None
    &&& body.start_date is None
    &&& body.due_date is None
    &&& body.due_at is None
    &&& body.estimate is None
    &&& body.parent_id is None
    &&& body.recurrence is None
    &&& body.archived is None
    &&& body.assignee_ids is None
    &&& body.label_ids is None
    &&& body.milestone_id is None
}

/// A list of ids that is not too long.
pub open spec fn few_ids(list: Option<Vec<Uuid>>) -> bool {
    list matches Some(v) ==> v@.len() <= MAX_IDS
}

/// A recurrence: an object with the one member `kind`, which is `daily`, `weekly` or `monthly`.
pub open spec fn known_recurrence(value: JsonView) -> bool {
    match value {
        JsonView::Object(m) => m.len() == 1 && m[0].0 == "kind"@ && (m[0].1 == JsonView::Text(
            "daily"@,
        ) || m[0].1 == JsonView::Text("weekly"@) || m[0].1 == JsonView::Text("monthly"@)),
        _ => false,
    }
}

pub fn recurrence_preset_is_valid(value: &Json) -> (r: bool)
    ensures
        r == known_recurrence(value@),
{
    match value {
        Json::Object(members) => {
            proof {
                json::lemma_object_view(*members);
            }
            if members.len() != 1 {
                return false;
            }
            assert(json::members_view(members@)[0] == (members@[0].0@, members@[0].1@));
            if !same(members[0].0.as_str(), "kind") {
                return false;
            }
            match &members[0].1 {
                Json::Text(kind) => same(kind.as_str(), "daily") || same(kind.as_str(), "weekly")
                    || same(kind.as_str(), "monthly"),
                _ => false,
            }
        },
        _ => false,
    }
}

/// The problem of a change of a task, if it has one: it changes nothing, lists too many ids, or
/// has a part that is not valid.
pub open spec fn patch_problem(body: PatchTaskBody, checks: TaskChecks) -> Option<
    error::ApiErrorView,
> {
    if patch_is_empty(body) || !few_ids(body.assignee_ids) || !few_ids(body.label_ids) || (
    body.title is Some && !checks.title) || (body.task_type is Some && !checks.task_type) || (
    body.priority is Some && !checks.priority) || (body.estimate matches Some(Some(_))
        && !checks.estimate) {
        Some(error::api_problem(ProblemCode::InvalidInput))
    } else if body.recurrence matches Some(Some(value)) && !known_recurrence(value@) {
        Some(
            error::coded_problem(400, "invalid_recurrence_preset"@, "invalid recurrence preset"@),
        )
    } else {
        None
    }
}

/// The change that a body without a problem asks for.
pub open spec fn patch_of(body: PatchTaskBody, input: PatchTaskMetaInput) -> bool {
    &&& input.expected_dates == body.expected_dates
    &&& input.task_type == body.task_type
    &&& input.title == body.title
    &&& input.priority == body.priority
    &&& input.status_id == body.status_id
    &&& input.start_date == field_update(body.start_date)
    &&& input.due_date == field_update(body.due_date)
    &&& input.due_at == field_update(body.due_at)
    &&& input.estimate == field_update(body.estimate)
    &&& input.parent_id == field_update(body.parent_id)
    &&& input.recurrence == field_update(body.recurrence)
    &&& input.archived == body.archived
    &&& input.assignee_ids == body.assignee_ids
    &&& input.label_ids == body.label_ids
    &&& input.milestone_id == field_update(body.milestone_id)
}

fn is_empty_patch(body: &PatchTaskBody) -> (r: bool)
    ensures
        r == patch_is_empty(*body),
{
    body.expected_dates.is_none() && body.task_type.is_none() && body.title.is_none()
        && body.priority.is_none() && body.status_id.is_none() && body.start_date.is_none()
        && body.due_date.is_none() && body.due_at.is_none() && body.estimate.is_none()
        && body.parent_id.is_none() && body.recurrence.is_none() && body.archived.is_none()
        && body.assignee_ids.is_none() && body.label_ids.is_none() && body.milestone_id.is_none()
}

fn has_few_ids(list: &Option<Vec<Uuid>>) -> (r: bool)
    ensures
        r == few_ids(*list),
{
    match list {
        Some(v) => v.len() <= MAX_IDS,
        None => true,
    }
}

/// Reads a change of a task.
pub fn parse_patch_body(body: PatchTaskBody, checks: TaskChecks) -> (r: Result<
    PatchTaskMetaInput,
    ApiError,
>)
    ensures
        match r {
            Ok(input) => patch_problem(body, checks) is None && patch_of(body, input),
            Err(e) => patch_problem(body, checks) == Some(e@),
        },
{
    if is_empty_patch(&body) {
        return Err(ApiError::app(ProblemCode::InvalidInput));
    }
    if !has_few_ids(&body.assignee_ids) || !has_few_ids(&body.label_ids) {
        return Err(ApiError::app(ProblemCode::InvalidInput));
    }
    if body.title.is_some() && !checks.title {
        return Err(ApiError::app(ProblemCode::InvalidInput));
    }
    if body.task_type.is_some() && !checks.task_type {
        return Err(ApiError::app(ProblemCode::InvalidInput));
    }
    if body.priority.is_some() && !checks.priority {
        return Err(ApiError::app(ProblemCode::InvalidInput));
    }
    if let Some(Some(_)) = &body.estimate {
        if !checks.estimate {
            return Err(ApiError::app(ProblemCode::InvalidInput));
        }
    }
    if let Some(Some(value)) = &body.recurrence {
        if !recurrence_preset_is_valid(value) {
            return Err(
                ApiError::coded(400, "invalid_recurrence_preset", "invalid recurrence preset"),
            );
        }
    }
    Ok(
        PatchTaskMetaInput {
            expected_dates: body.expected_dates,
            task_type: body.task_type,
            title: body.title,
            priority: body.priority,
            status_id: body.status_id,
            start_date: FieldUpdate::from_optional(body.start_date),
            due_date: FieldUpdate::from_optional(body.due_date),
            due_at: FieldUpdate::from_optional(body.due_at),
            estimate: FieldUpdate::from_optional(body.estimate),
            parent_id: FieldUpdate::from_optional(body.parent_id),
            recurrence: FieldUpdate::from_optional(body.recurrence),
            archived: body.archived,
            assignee_ids: body.assignee_ids,
            label_ids: body.label_ids,
            milestone_id: FieldUpdate::from_optional(body.milestone_id),
        },
    )
}

/// Why the query of a list of tasks is not one.
#[derive(Clone, Copy, Debug, PartialEq, Eq, Structural)]
pub enum TaskListQueryError {
    InvalidInput,
    InvalidCursor,
}

pub fn map_task_list_query_error(err: TaskListQueryError) -> (r: ApiError)
    ensures
        r@ == match err {
            TaskListQueryError::InvalidInput => error::api_problem(ProblemCode::InvalidInput),
            TaskListQueryError::InvalidCursor => error::ApiErrorView::App(
                error::problem_detail(400, ProblemCode::InvalidInput, "invalid_cursor"@),
            ),
        },
{
    match err {
        TaskListQueryError::InvalidInput => ApiError::app(ProblemCode::InvalidInput),
        TaskListQueryError::InvalidCursor => ApiError::App(
            AppError::detail(400, ProblemCode::InvalidInput, "invalid_cursor"),
        ),
    }
}

/// A task, as the store keeps it.
#[derive(Debug)]
pub struct TaskMetaRow {
    pub id: Uuid,
    pub workspace_id: Uuid,
    pub project_id: Uuid,
    pub number: i32,
    pub title: String,
    pub task_type: String,
    pub priority: String,
    pub status_id: Uuid,
    pub start_date: Option<Date>,
    pub due_date: Option<Date>,
    pub due_at: Option<Timestamp>,
    pub estimate: Option<String>,
    pub parent_id: Option<Uuid>,
    pub milestone_id: Option<Uuid>,
    pub recurrence: Option<Json>,
    pub sort_key: String,
    pub schema_version: i32,
    pub version: i64,
    pub archived_at: Option<Timestamp>,
    pub created_by: Uuid,
    pub created_at: Timestamp,
    pub updated_at: Timestamp,
}

/// A task as it is answered.
#[derive(Debug)]
pub struct TaskMetaOutput {
    pub id: String,
    pub workspace_id: String,
    pub project_id: String,
    pub number: i32,
    pub title: String,
    pub task_type: String,
    pub priority: String,
    pub status_id: String,
    pub start_date: Option<Date>,
    pub due_date: Option<Date>,
    pub due_at: Option<Timestamp>,
    pub estimate: Option<String>,
    pub parent_id: Option<String>,
    pub milestone_id: Option<String>,
    pub recurrence: Option<Json>,
    pub sort_key: String,
    pub schema_version: i32,
    pub version: i64,
    pub archived_at: Option<Timestamp>,
    pub created_by: String,
    pub created_at: Timestamp,
    pub updated_at: Timestamp,
}

/// A value that may be missing, once more.
fn copy_optional(o: &Option<Json>) -> (r: Option<Json>)
    ensures
        json::json_view(r) == json::json_view(*o),
{
    match o {
        Some(j) => Some(copy_json(j)),
        None => None,
    }
}

impl Answer for TaskMetaRow {
    type Out = TaskMetaOutput;

    open spec fn answered(&self, out: &TaskMetaOutput) -> bool {
        &&& out.id@ == ids::uuid_text(self.id.0)
        &&& out.workspace_id@ == ids::uuid_text(self.workspace_id.0)
        &&& out.project_id@ == ids::uuid_text(self.project_id.0)
        &&& out.number == self.number
        &&& out.title@ == self.title@
        &&& out.task_type@ == self.task_type@
        &&& out.priority@ == self.priority@
        &&& out.status_id@ == ids::uuid_text(self.status_id.0)
        &&& out.start_date == self.start_date
        &&& out.due_date == self.due_date
        &&& out.due_at == self.due_at
        &&& error::text_view(out.estimate) == error::text_view(self.estimate)
        &&& error::text_view(out.parent_id) == ids::opt_text(self.parent_id)
        &&& error::text_view(out.milestone_id) == ids::opt_text(self.milestone_id)
        &&& json::json_view(out.recurrence) == json::json_view(self.recurrence)
        &&& out.sort_key@ == self.sort_key@
        &&& out.schema_version == self.schema_version
        &&& out.version == self.version
        &&& out.archived_at == self.archived_at
        &&& out.created_by@ == ids::uuid_text(self.created_by.0)
        &&& out.created_at == self.created_at
        &&& out.updated_at == self.updated_at
    }

    fn answer(&self) -> (r: TaskMetaOutput) {
        TaskMetaOutput {
            id: self.id.text(),
            workspace_id: self.workspace_id.text(),
            project_id: self.project_id.text(),
            number: self.number,
            title: self.title.clone(),
            task_type: self.task_type.clone(),
            priority: self.priority.clone(),
            status_id: self.status_id.text(),
            start_date: self.start_date,
            due_date: self.due_date,
            due_at: self.due_at,
            estimate: copy_text(&self.estimate),
            parent_id: text_of(self.parent_id),
            milestone_id: text_of(self.milestone_id),
            recurrence: copy_optional(&self.recurrence),
            sort_key: self.sort_key.clone(),
            schema_version: self.schema_version,
            version: self.version,
            archived_at: self.archived_at,
            created_by: self.created_by.text(),
            created_at: self.created_at,
            updated_at: self.updated_at,
        }
    }
}

/// A task in a list, as the store keeps it.
#[derive(Debug)]
pub struct TaskListItem {
    pub meta: TaskMetaRow,
    pub assignee_ids: Vec<Uuid>,
    pub label_ids: Vec<Uuid>,
}

/// A task in a list as it is answered.
#[derive(Debug)]
pub struct TaskListItemOutput {
    pub meta: TaskMetaOutput,
    pub assignee_ids: Vec<String>,
    pub label_ids: Vec<String>,
}

impl Answer for TaskListItem {
    type Out = TaskListItemOutput;

    open spec fn answered(&self, out: &TaskListItemOutput) -> bool {
        &&& self.meta.answered(&out.meta)
        &&& text::views(out.assignee_ids@) == ids::uuid_texts(self.assignee_ids@)
        &&& text::views(out.label_ids@) == ids::uuid_texts(self.label_ids@)
    }

    fn answer(&self) -> (r: TaskListItemOutput) {
        TaskListItemOutput {
            meta: self.meta.answer(),
            assignee_ids: texts_of(self.assignee_ids.as_slice()),
            label_ids: texts_of(self.label_ids.as_slice()),
        }
    }
}

/// How many tasks have a status, as the store counts them.
#[derive(Clone, Copy, Debug, PartialEq, Eq, Structural)]
pub struct StatusCount {
    pub status_id: Uuid,
    pub count: i64,
}

/// How many tasks have a status, as it is answered.
#[derive(Debug)]
pub struct TaskStatusCountOutput {
    pub status_id: String,
    pub count: i64,
}

impl Answer for StatusCount {
    type Out = TaskStatusCountOutput;

    open spec fn answered(&self, out: &TaskStatusCountOutput) -> bool {
        out.status_id@ == ids::uuid_text(self.status_id.0) && out.count == self.count
    }

    fn answer(&self) -> (r: TaskStatusCountOutput) {
        TaskStatusCountOutput { status_id: self.status_id.text(), count: self.count }
    }
}

/// A page of a list of tasks, as the store hands it out.
#[derive(Debug)]
pub struct TaskPage {
    pub items: Vec<TaskListItem>,
    pub next_cursor: Option<String>,
    pub status_counts: Vec<StatusCount>,
}

/// A page of a list of tasks as it is answered.
#[derive(Debug)]
pub struct TaskListResponse {
    pub items: Vec<TaskListItemOutput>,
    pub next_cursor: Option<String>,
    pub status_counts: Vec<TaskStatusCountOutput>,
}

impl Answer for TaskPage {
    type Out = TaskListResponse;

    open spec fn answered(&self, out: &TaskListResponse) -> bool {
        &&& answer::all_answered(self.items@, out.items@)
        &&& error::text_view(out.next_cursor) == error::text_view(self.next_cursor)
        &&& answer::all_answered(self.status_counts@, out.status_counts@)
    }

    fn answer(&self) -> (r: TaskListResponse) {
        TaskListResponse {
            items: answer_all(self.items.as_slice()),
            next_cursor: copy_text(&self.next_cursor),
            status_counts: answer_all(self.status_counts.as_slice()),
        }
    }
}

/// A label, as the store keeps it.
#[derive(Debug)]
pub struct LabelRow {
    pub id: Uuid,
    pub project_id: Uuid,
    pub name: String,
    pub color: String,
}

/// A label as it is answered.
#[derive(Debug)]
pub struct LabelOutput {
    pub id: String,
    pub project_id: String,
    pub name: String,
    pub color: String,
}

impl Answer for LabelRow {
    type Out = LabelOutput;

    open spec fn answered(&self, out: &LabelOutput) -> bool {
        &&& out.id@ == ids::uuid_text(self.id.0)
        &&& out.project_id@ == ids::uuid_text(self.project_id.0)
        &&& out.name@ == self.name@
        &&& out.color@ == self.color@
    }

    fn answer(&self) -> (r: LabelOutput) {
        LabelOutput {
            id: self.id.text(),
            project_id: self.project_id.text(),
            name: self.name.clone(),
            color: self.color.clone(),
        }
    }
}

/// A milestone, as the store keeps it.
#[derive(Debug)]
pub struct MilestoneRow {
    pub id: Uuid,
    pub project_id: Uuid,
    pub name: String,
    pub due_date: Option<Date>,
    pub sort_key: String,
}

/// A milestone as it is answered.
#[derive(Debug)]
pub struct MilestoneOutput {
    pub id: String,
    pub project_id: String,
    pub name: String,
    pub due_date: Option<Date>,
    pub sort_key: String,
}

impl Answer for MilestoneRow {
    type Out = MilestoneOutput;

    open spec fn answered(&self, out: &MilestoneOutput) -> bool {
        &&& out.id@ == ids::uuid_text(self.id.0)
        &&& out.project_id@ == ids::uuid_text(self.project_id.0)
        &&& out.name@ == self.name@
        &&& out.due_date == self.due_date
        &&& out.sort_key@ == self.sort_key@
    }

    fn answer(&self) -> (r: MilestoneOutput) {
        MilestoneOutput {
            id: self.id.text(),
            project_id: self.project_id.text(),
            name: self.name.clone(),
            due_date: self.due_date,
            sort_key: self.sort_key.clone(),
        }
    }
}

/// That one task waits for another, as the store keeps it.
#[derive(Debug)]
pub struct TaskDependencyEdge {
    pub blocker_id: Uuid,
    pub blocked_id: Uuid,
    pub dependency_type: String,
    pub lag_days: i32,
}

/// That one task waits for another, as it is answered.
#[derive(Debug)]
pub struct TaskDependencyOutput {
    pub blocker_id: String,
    pub blocked_id: String,
    pub dependency_type: String,
    pub lag_days: i32,
}

impl Answer for TaskDependencyEdge {
    type Out = TaskDependencyOutput;

    open spec fn answered(&self, out: &TaskDependencyOutput) -> bool {
        &&& out.blocker_id@ == ids::uuid_text(self.blocker_id.0)
        &&& out.blocked_id@ == ids::uuid_text(self.blocked_id.0)
        &&& out.dependency_type@ == self.dependency_type@
        &&& out.lag_days == self.lag_days
    }

    fn answer(&self) -> (r: TaskDependencyOutput) {
        TaskDependencyOutput {
            blocker_id: self.blocker_id.text(),
            blocked_id: self.blocked_id.text(),
            dependency_type: self.dependency_type.clone(),
            lag_days: self.lag_days,
        }
    }
}

/// How many children of a task are done.
#[derive(Clone, Copy, Debug, PartialEq, Eq, Structural)]
pub struct ChildProgress {
    pub done: i64,
    pub total: i64,
}

/// The task above another, as the store keeps it.
#[derive(Debug)]
pub struct TaskParent {
    pub id: Uuid,
    pub title: String,
    pub task_type: String,
    pub number: i32,
}

/// The task above another as it is answered.
#[derive(Debug)]
pub struct TaskParentOutput {
    pub id: String,
    pub title: String,
    pub task_type: String,
    pub number: i32,
}

impl Answer for TaskParent {
    type Out = TaskParentOutput;

    open spec fn answered(&self, out: &TaskParentOutput) -> bool {
        &&& out.id@ == ids::uuid_text(self.id.0)
        &&& out.title@ == self.title@
        &&& out.task_type@ == self.task_type@
        &&& out.number == self.number
    }

    fn answer(&self) -> (r: TaskParentOutput) {
        TaskParentOutput {
            id: self.id.text(),
            title: self.title.clone(),
            task_type: self.task_type.clone(),
            number: self.number,
        }
    }
}

/// A task below another, as the store keeps it.
#[derive(Debug)]
pub struct TaskChild {
    pub id: Uuid,
    pub number: i32,
    pub title: String,
    pub task_type: String,
    pub status_id: Uuid,
}

/// A task below another as it is answered.
#[derive(Debug)]
pub struct TaskChildOutput {
    pub id: String,
    pub number: i32,
    pub title: String,
    pub task_type: String,
    pub status_id: String,
}

impl Answer for TaskChild {
    type Out = TaskChildOutput;

    open spec fn answered(&self, out: &TaskChildOutput) -> bool {
        &&& out.id@ == ids::uuid_text(self.id.0)
        &&& out.number == self.number
        &&& out.title@ == self.title@
        &&& out.task_type@ == self.task_type@
        &&& out.status_id@ == ids::uuid_text(self.status_id.0)
    }

    fn answer(&self) -> (r: TaskChildOutput) {
        TaskChildOutput {
            id: self.id.text(),
            number: self.number,
            title: self.title.clone(),
            task_type: self.task_type.clone(),
            status_id: self.status_id.text(),
        }
    }
}

/// A task with all that belongs to it, as the store keeps it.
#[derive(Debug)]
pub struct TaskRow {
    pub meta: TaskMetaRow,
    pub content_json: Json,
    pub can_edit: bool,
    pub assignee_ids: Vec<Uuid>,
    pub label_ids: Vec<Uuid>,
    pub dependencies: Vec<TaskDependencyEdge>,
    pub child_progress: Option<ChildProgress>,
    pub parent: Option<TaskParent>,
    pub children: Vec<TaskChild>,
}

/// A task with all that belongs to it as it is answered.
#[derive(Debug)]
pub struct TaskOutput {
    pub meta: TaskMetaOutput,
    pub content_json: Json,
    pub can_edit: bool,
    pub assignee_ids: Vec<String>,
    pub label_ids: Vec<String>,
    pub dependencies: Vec<TaskDependencyOutput>,
    pub child_progress: Option<ChildProgress>,
    pub parent: Option<TaskParentOutput>,
    pub children: Vec<TaskChildOutput>,
}

impl Answer for TaskRow {
    type Out = TaskOutput;

    open spec fn answered(&self, out: &TaskOutput) -> bool {
        &&& self.meta.answered(&out.meta)
        &&& out.content_json@ == self.content_json@
        &&& out.can_edit == self.can_edit
        &&& text::views(out.assignee_ids@) == ids::uuid_texts(self.assignee_ids@)
        &&& text::views(out.label_ids@) == ids::uuid_texts(self.label_ids@)
        &&& answer::all_answered(self.dependencies@, out.dependencies@)
        &&& out.child_progress == self.child_progress
        &&& match self.parent {
            Some(parent) => out.parent matches Some(p) && parent.answered(&p),
            None => out.parent is None,
        }
        &&& answer::all_answered(self.children@, out.children@)
    }

    fn answer(&self) -> (r: TaskOutput) {
        TaskOutput {
            meta: self.meta.answer(),
            content_json: copy_json(&self.content_json),
            can_edit: self.can_edit,
            assignee_ids: texts_of(self.assignee_ids.as_slice()),
            label_ids: texts_of(self.label_ids.as_slice()),
            dependencies: answer_all(self.dependencies.as_slice()),
            child_progress: self.child_progress,
            parent: match &self.parent {
                Some(parent) => Some(parent.answer()),
                None => None,
            },
            children: answer_all(self.children.as_slice()),
        }
    }
}

/// Why the store did not list what happened to a task.
#[derive(Clone, Copy, Debug, PartialEq, Eq, Structural)]
pub enum TaskActivityDbError {
    InvalidInput,
    InvalidCursor,
    NotFound,
}

/// The problem that such a refusal ends in.
pub open spec fn activity_problem(err: TaskActivityDbError) -> error::ApiErrorView {
    match err {
        TaskActivityDbError::InvalidInput => error::api_problem(ProblemCode::InvalidInput),
        TaskActivityDbError::InvalidCursor => error::coded_problem(
            400,
            "invalid_cursor"@,
            "invalid cursor"@,
        ),
        TaskActivityDbError::NotFound => error::api_problem(ProblemCode::NotFound),
    }
}

pub fn map_activity_error(err: TaskActivityDbError) -> (r: ApiError)
    ensures
        r@ == activity_problem(err),
{
    match err {
        TaskActivityDbError::InvalidInput => ApiError::app(ProblemCode::InvalidInput),
        TaskActivityDbError::InvalidCursor => ApiError::coded(
            400,
            "invalid_cursor",
            "invalid cursor",
        ),
        TaskActivityDbError::NotFound => ApiError::app(ProblemCode::NotFound),
    }
}

/// The number of items that a query asks for.
pub fn activity_limit(limit: Option<i32>) -> (r: i32)
    ensures
        r == match limit {
            Some(n) => n,
            None => ACTIVITY_PAGE,
        },
{
    match limit {
        Some(n) => n,
        None => ACTIVITY_PAGE,
    }
}

/// The bytes of the first `n` items of an answer: each is followed by a separator.
pub open spec fn activity_bytes(sizes: Seq<u64>, n: int) -> int
    decreases n,
{
    if n <= 0 {
        ACTIVITY_ENVELOPE_BYTES as int
    } else {
        activity_bytes(sizes, n - 1) + sizes[n - 1] + 1
    }
}

/// An answer with the first `n` items keeps the budget. The first item is always kept.
pub open spec fn activity_fits(sizes: Seq<u64>, n: int) -> bool {
    n <= 1 || activity_bytes(sizes, n) <= ACTIVITY_RESPONSE_BUDGET_BYTES
}

/// `n` items of an answer are kept: as many as fit, the first in any case.
pub open spec fn activity_kept(sizes: Seq<u64>, n: int) -> bool {
    &&& 0 <= n <= sizes.len()
    &&& forall|k: int| 0 <= k <= n ==> #[trigger] activity_fits(sizes, k)
    &&& n < sizes.len() ==> !activity_fits(sizes, n + 1)
}

/// How many items of an answer are kept, by the bytes that each is written with.
pub fn keep_activity(sizes: &[u64]) -> (r: usize)
    ensures
        activity_kept(sizes@, r as int),
{
    let mut bytes: u128 = ACTIVITY_ENVELOPE_BYTES as u128;
    let mut n: usize = 0;
    while n < sizes.len()
        invariant
            n <= sizes@.len(),
            bytes == activity_bytes(sizes@, n as int),
            bytes <= 2048 + 0x1_0000_0000_0000_0000 || bytes <= ACTIVITY_RESPONSE_BUDGET_BYTES,
            forall|k: int| 0 <= k <= n ==> #[trigger] activity_fits(sizes@, k),
        decreases sizes.len() - n,
    {
        let more: u128 = bytes + sizes[n] as u128 + 1;
        assert(more == activity_bytes(sizes@, n + 1));
        if n > 0 && more > ACTIVITY_RESPONSE_BUDGET_BYTES as u128 {
            assert(!activity_fits(sizes@, n + 1));
            return n;
        }
        bytes = more;
        n = n + 1;
        assert(activity_fits(sizes@, n as int));
    }
    n
}

/// Whether an answer ends with a cursor: there are more items, on further pages or because they
/// did not fit.
pub fn activity_continues(total: usize, kept: usize, has_more: bool) -> (r: Option<usize>)
    requires
        kept <= total,
    ensures
        r == if (has_more || kept < total) && kept > 0 {
            Some((kept - 1) as usize)
        } else {
            None
        },
{
    if (has_more || kept < total) && kept > 0 {
        Some(kept - 1)
    } else {
        None
    }
}

/// A change of one part of a task as it is answered.
#[derive(Debug)]
pub struct ActivityChangeOutput {
    pub field: String,
    pub from: Json,
    pub to: Json,
}

/// The contents of an `ActivityChangeOutput`.
pub struct ActivityChangeView {
    pub field: Seq<char>,
    pub from: JsonView,
    pub to: JsonView,
}

impl View for ActivityChangeOutput {
    type V = ActivityChangeView;

    open spec fn view(&self) -> ActivityChangeView {
        ActivityChangeView { field: self.field@, from: self.from@, to: self.to@ }
    }
}

/// A member of an object, or null.
pub open spec fn or_null(v: Option<JsonView>) -> JsonView {
    match v {
        Some(j) => j,
        None => JsonView::Null,
    }
}

/// The change that a stored value tells of: one of a part that it names.
pub open spec fn change_of(value: JsonView) -> Option<ActivityChangeView> {
    match value {
        JsonView::Object(m) => match json::find(m, "field"@) {
            Some(JsonView::Text(field)) => Some(
                ActivityChangeView {
                    field,
                    from: or_null(json::find(m, "from"@)),
                    to: or_null(json::find(m, "to"@)),
                },
            ),
            _ => None,
        },
        _ => None,
    }
}

/// A member of an object, or null.
fn member_or_null(members: &Vec<(String, Json)>, name: &str) -> (r: Json)
    ensures
        r@ == or_null(json::find(json::members_view(members@), name@)),
{
    match member(members, name) {
        Some(j) => copy_json(j),
        None => Json::Null,
    }
}

/// Reads a stored change.
pub fn change_output(value: &Json) -> (r: Option<ActivityChangeOutput>)
    ensures
        match r {
            Some(c) => change_of(value@) == Some(c@),
            None => change_of(value@) is None,
        },
{
    match value {
        Json::Object(members) => {
            proof {
                json::lemma_object_view(*members);
            }
            match member(members, "field") {
                Some(Json::Text(field)) => Some(
                    ActivityChangeOutput {
                        field: field.clone(),
                        from: member_or_null(members, "from"),
                        to: member_or_null(members, "to"),
                    },
                ),
                _ => None,
            }
        },
        _ => None,
    }
}

/// The changes that stored values tell of, in order; a value that tells of none is passed over.
pub open spec fn changes_of(values: Seq<JsonView>) -> Seq<ActivityChangeView>
    decreases values.len(),
{
    if values.len() == 0 {
        Seq::empty()
    } else {
        match change_of(values.last()) {
            Some(c) => changes_of(values.drop_last()).push(c),
            None => changes_of(values.drop_last()),
        }
    }
}

/// The contents of a list of changes.
pub open spec fn change_views(changes: Seq<ActivityChangeOutput>) -> Seq<ActivityChangeView> {
    changes.map_values(|c: ActivityChangeOutput| c@)
}

/// Reads stored changes.
pub fn changes_output(values: &[Json]) -> (r: Vec<ActivityChangeOutput>)
    ensures
        change_views(r@) == changes_of(json::items_view(values@)),
{
    let ghost all = json::items_view(values@);
    let mut out: Vec<ActivityChangeOutput> = Vec::new();
    let mut i: usize = 0;
    assert(change_views(out@) == changes_of(all.subrange(0, 0)));
    while i < values.len()
        invariant
            i <= values@.len(),
            all == json::items_view(values@),
            change_views(out@) == changes_of(all.subrange(0, i as int)),
        decreases values.len() - i,
    {
        proof {
            let next = all.subrange(0, i + 1);
            assert(next.drop_last() == all.subrange(0, i as int));
            assert(next.last() == values@[i as int]@);
        }
        if let Some(c) = change_output(&values[i]) {
            let ghost before = out@;
            out.push(c);
            assert(change_views(out@) == change_views(before).push(c@));
        }
        i = i + 1;
    }
    assert(all.subrange(0, i as int) == all);
    out
}

/// One who did something, as the store keeps them.
#[derive(Debug)]
pub struct ActivityActor {
    pub id: Uuid,
    pub name: String,
}

/// One who did something as they are answered.
#[derive(Debug)]
pub struct ActivityActorOutput {
    pub id: Uuid,
    pub name: String,
}

/// Changes of a task that were made at once, as the store keeps them.
#[derive(Debug)]
pub struct ActivityChange {
    pub id: Uuid,
    pub created_at: Timestamp,
    pub actor: Option<ActivityActor>,
    pub channel: String,
    pub kind: String,
    pub changes: Vec<Json>,
}

/// The comment that another answers, as the store keeps it.
#[derive(Debug)]
pub struct ActivityCommentParent {
    pub id: Uuid,
    pub body: String,
    pub actor: Option<ActivityActor>,
}

/// A comment on a task, as the store keeps it.
#[derive(Debug)]
pub struct ActivityComment {
    pub comment: CommentRow,
    /// The reactions as one who reads them sees them.
    pub reactions: Reactions,
    pub actor: Option<ActivityActor>,
    pub parent: Option<ActivityCommentParent>,
}

/// Something that happened to a task, as the store keeps it.
#[derive(Debug)]
pub enum TaskActivityItem {
    Change(ActivityChange),
    Comment(ActivityComment),
}

/// The comment that another answers as it is answered.
#[derive(Debug)]
pub struct ActivityCommentParentOutput {
    pub id: Uuid,
    pub body: String,
    pub actor: Option<ActivityActorOutput>,
}

/// Something that happened to a task as it is answered.
#[derive(Debug)]
pub enum ActivityItemOutput {
    Change {
        id: Uuid,
        created_at: Timestamp,
        actor: Option<ActivityActorOutput>,
        channel: String,
        kind: String,
        changes: Vec<ActivityChangeOutput>,
    },
    Comment {
        id: Uuid,
        created_at: Timestamp,
        actor: Option<ActivityActorOutput>,
        comment: CommentOutput,
        parent: Option<ActivityCommentParentOutput>,
    },
}

/// One who did something as they are answered.
pub open spec fn actor_of(actor: Option<ActivityActor>) -> Option<ActivityActorOutput> {
    match actor {
        Some(a) => Some(ActivityActorOutput { id: a.id, name: a.name }),
        None => None,
    }
}

/// One who did something as they are answered.
pub fn activity_actor_output(actor: Option<ActivityActor>) -> (r: Option<ActivityActorOutput>)
    ensures
        r == actor_of(actor),
{
    match actor {
        Some(a) => Some(ActivityActorOutput { id: a.id, name: a.name }),
        None => None,
    }
}

/// Something that happened to a task as it is answered.
pub open spec fn shows_activity(item: TaskActivityItem, out: ActivityItemOutput) -> bool {
    match item {
        TaskActivityItem::Change(change) => out matches ActivityItemOutput::Change {
            id,
            created_at,
            actor,
            channel,
            kind,
            changes,
        } && {
            &&& id == change.id
            &&& created_at == change.created_at
            &&& actor == actor_of(change.actor)
            &&& channel == change.channel
            &&& kind == change.kind
            &&& change_views(changes@) == changes_of(json::items_view(change.changes@))
        },
        TaskActivityItem::Comment(told) => out == (ActivityItemOutput::Comment {
            id: told.comment.id,
            created_at: told.comment.created_at,
            actor: actor_of(told.actor),
            comment: comments::shown_comment(told.comment, told.reactions),
            parent: match told.parent {
                Some(p) => Some(
                    ActivityCommentParentOutput {
                        id: p.id,
                        body: p.body,
                        actor: actor_of(p.actor),
                    },
                ),
                None => None,
            },
        }),
    }
}

/// Something that happened to a task as it is answered.
pub fn activity_item_output(item: TaskActivityItem) -> (r: ActivityItemOutput)
    ensures
        shows_activity(item, r),
{
    match item {
        TaskActivityItem::Change(change) => ActivityItemOutput::Change {
            id: change.id,
            created_at: change.created_at,
            actor: activity_actor_output(change.actor),
            channel: change.channel,
            kind: change.kind,
            changes: changes_output(change.changes.as_slice()),
        },
        TaskActivityItem::Comment(told) => ActivityItemOutput::Comment {
            id: told.comment.id,
            created_at: told.comment.created_at,
            actor: activity_actor_output(told.actor),
            comment: comment_to_output(told.comment, told.reactions),
            parent: match told.parent {
                Some(p) => Some(
                    ActivityCommentParentOutput {
                        id: p.id,
                        body: p.body,
                        actor: activity_actor_output(p.actor),
                    },
                ),
                None => None,
            },
        },
    }
}

/// The sizes up to the first that is missing.
pub open spec fn known_sizes(sizes: Seq<Option<u64>>) -> Seq<u64>
    decreases sizes.len(),
{
    if sizes.len() == 0 {
        Seq::empty()
    } else {
        match sizes[0] {
            Some(n) => seq![n] + known_sizes(sizes.drop_first()),
            None => Seq::empty(),
        }
    }
}

fn read_sizes(sizes: &[Option<u64>]) -> (r: Vec<u64>)
    ensures
        r@ == known_sizes(sizes@),
{
    let n: usize = sizes.len();
    let mut out: Vec<u64> = Vec::new();
    let mut i: usize = 0;
    assert(sizes@.subrange(0, n as int) == sizes@);
    assert(out@ + known_sizes(sizes@) == known_sizes(sizes@));
    while i < n
        invariant
            i <= n == sizes@.len(),
            out@ + known_sizes(sizes@.subrange(i as int, n as int)) == known_sizes(sizes@),
        decreases n - i,
    {
        let ghost tail = sizes@.subrange(i as int, n as int);
        assert(tail.drop_first() == sizes@.subrange(i + 1, n as int));
        match sizes[i] {
            None => {
                assert(out@ + known_sizes(tail) == out@);
                return out;
            },
            Some(size) => {
                let ghost before = out@;
                out.push(size);
                assert(before + (seq![size] + known_sizes(tail.drop_first())) == out@
                    + known_sizes(tail.drop_first()));
            },
        }
        i = i + 1;
    }
    assert(known_sizes(sizes@.subrange(i as int, n as int)) == Seq::<u64>::empty());
    assert(out@ + Seq::<u64>::empty() == out@);
    out
}

/// A page of what happened to a task: the items that fit, and the item behind which the next page
/// begins, if there is one. `sizes` are the bytes that the items are written with; one is missing
/// where its item cannot be written.
pub fn activity_page_output(
    items: Vec<ActivityItemOutput>,
    sizes: &[Option<u64>],
    has_more: bool,
) -> (r: Result<(Vec<ActivityItemOutput>, Option<usize>), ApiError>)
    requires
        sizes@.len() == items@.len(),
    ensures
        ({
            let known = known_sizes(sizes@);
            match r {
                Err(e) => known.len() < sizes@.len() && activity_kept(known, known.len() as int)
                    && e@ == error::api_problem(ProblemCode::Internal),
                Ok((kept, last)) => {
                    let n = kept@.len() as int;
                    &&& activity_kept(known, n)
                    &&& n < known.len() || known.len() == sizes@.len()
                    &&& kept@ == items@.subrange(0, n)
                    &&& last == if (has_more || n < items@.len()) && n > 0 {
                        Some((n - 1) as usize)
                    } else {
                        None
                    }
                },
            }
        }),
{
    let known = read_sizes(sizes);
    proof {
        lemma_known_sizes(sizes@);
    }
    let n: usize = keep_activity(known.as_slice());
    if n == known.len() && known.len() < sizes.len() {
        return Err(ApiError::app(ProblemCode::Internal));
    }
    let total: usize = items.len();
    let mut items = items;
    items.truncate(n);
    let last = activity_continues(total, n, has_more);
    Ok((items, last))
}

proof fn lemma_known_sizes(sizes: Seq<Option<u64>>)
    ensures
        known_sizes(sizes).len() <= sizes.len(),
    decreases sizes.len(),
{
    if sizes.len() > 0 {
        lemma_known_sizes(sizes.drop_first());
    }
}

/// What a task's answer keeps of a page is never nothing, and never more than the budget but for a
/// first item that alone exceeds it.
pub proof fn law_activity_budget(sizes: Seq<u64>, n: int)
    requires
        activity_kept(sizes, n),
    ensures
        sizes.len() > 0 ==> n > 0,
        n > 1 ==> activity_bytes(sizes, n) <= ACTIVITY_RESPONSE_BUDGET_BYTES,
{
    assert(activity_fits(sizes, n));
    if sizes.len() > 0 && n == 0 {
        assert(activity_fits(sizes, 1));
    }
}

/// A patch that is accepted asks for some change.
pub proof fn law_accepted_patch_asks_for_a_change(
    body: PatchTaskBody,
    checks: TaskChecks,
    input: PatchTaskMetaInput,
)
    requires
        patch_problem(body, checks) is None,
        patch_of(body, input),
    ensures
        !(input.expected_dates is None && input.task_type is None && input.title is None
            && input.priority is None && input.status_id is None && input.start_date is Unchanged
            && input.due_date is Unchanged && input.due_at is Unchanged && input.estimate
            is Unchanged && input.parent_id is Unchanged && input.recurrence is Unchanged
            && input.archived is None && input.assignee_ids is None && input.label_ids is None
            && input.milestone_id is Unchanged),
{
}

/// Each part of a change depends on the member of its own name alone: it stays as it is where the
/// member is missing, is cleared where it is null, and takes its value where it has one.
pub proof fn law_each_part_follows_its_member(body: PatchTaskBody, input: PatchTaskMetaInput)
    requires
        patch_of(body, input),
    ensures
        match body.start_date {
            None => input.start_date is Unchanged,
            Some(None) => input.start_date is Clear,
            Some(Some(v)) => input.start_date == FieldUpdate::Replace(v),
        },
        match body.due_date {
            None => input.due_date is Unchanged,
            Some(None) => input.due_date is Clear,
            Some(Some(v)) => input.due_date == FieldUpdate::Replace(v),
        },
        match body.due_at {
            None => input.due_at is Unchanged,
            Some(None) => input.due_at is Clear,
            Some(Some(v)) => input.due_at == FieldUpdate::Replace(v),
        },
        match body.estimate {
            None => input.estimate is Unchanged,
            Some(None) => input.estimate is Clear,
            Some(Some(v)) => input.estimate == FieldUpdate::Replace(v),
        },
        match body.parent_id {
            None => input.parent_id is Unchanged,
            Some(None) => input.parent_id is Clear,
            Some(Some(v)) => input.parent_id == FieldUpdate::Replace(v),
        },
        match body.recurrence {
            None => input.recurrence is Unchanged,
            Some(None) => input.recurrence is Clear,
            Some(Some(v)) => input.recurrence == FieldUpdate::Replace(v),
        },
        match body.milestone_id {
            None => input.milestone_id is Unchanged,
            Some(None) => input.milestone_id is Clear,
            Some(Some(v)) => input.milestone_id == FieldUpdate::Replace(v),
        },
        input.expected_dates == body.expected_dates,
        input.task_type == body.task_type,
        input.title == body.title,
        input.priority == body.priority,
        input.status_id == body.status_id,
        input.archived == body.archived,
        input.assignee_ids == body.assignee_ids,
        input.label_ids == body.label_ids,
{
}

/// Two bodies that differ in the due date alone ask for changes that differ in the due date alone,
/// and differ there.
pub proof fn law_due_date_changes_nothing_else(
    body: PatchTaskBody,
    input: PatchTaskMetaInput,
    due_date: Option<Option<Date>>,
    other: PatchTaskMetaInput,
)
    requires
        patch_of(body, input),
        patch_of((PatchTaskBody { due_date, ..body }), other),
    ensures
        other == (PatchTaskMetaInput { due_date: other.due_date, ..input }),
        other.due_date == input.due_date <==> due_date == body.due_date,
{
}

/// Two bodies that differ in the start date alone ask for changes that differ in the start date
/// alone, and differ there.
pub proof fn law_start_date_changes_nothing_else(
    body: PatchTaskBody,
    input: PatchTaskMetaInput,
    start_date: Option<Option<Date>>,
    other: PatchTaskMetaInput,
)
    requires
        patch_of(body, input),
        patch_of((PatchTaskBody { start_date, ..body }), other),
    ensures
        other == (PatchTaskMetaInput { start_date: other.start_date, ..input }),
        other.start_date == input.start_date <==> start_date == body.start_date,
{
}

/// A body that sets the due date alone leaves every other part as it is.
pub proof fn law_due_date_alone(body: PatchTaskBody, input: PatchTaskMetaInput, v: Date)
    requires
        patch_of(body, input),
        body.due_date == Some(Some(v)),
        patch_is_empty((PatchTaskBody { due_date: None, ..body })),
    ensures
        input.due_date == FieldUpdate::Replace(v),
        input.start_date is Unchanged,
        input.due_at is Unchanged,
        input.estimate is Unchanged,
        input.parent_id is Unchanged,
        input.recurrence is Unchanged,
        input.milestone_id is Unchanged,
        input.expected_dates is None,
        input.task_type is None,
        input.title is None,
        input.priority is None,
        input.status_id is None,
        input.archived is None,
        input.assignee_ids is None,
        input.label_ids is None,
{
}

/// A recurrence is an object whose one member `kind` is one of three texts, and nothing else.
pub proof fn law_recurrence_has_one_kind(value: JsonView)
    ensures
        known_recurrence(value) <==> value == JsonView::Object(
            seq![("kind"@, JsonView::Text("daily"@))],
        ) || value == JsonView::Object(seq![("kind"@, JsonView::Text("weekly"@))]) || value
            == JsonView::Object(seq![("kind"@, JsonView::Text("monthly"@))]),
{
    if let JsonView::Object(m) = value {
        if m.len() == 1 {
            assert(m =~= seq![(m[0].0, m[0].1)]);
        }
        let daily = seq![("kind"@, JsonView::Text("daily"@))];
        let weekly = seq![("kind"@, JsonView::Text("weekly"@))];
        let monthly = seq![("kind"@, JsonView::Text("monthly"@))];
        assert(m == daily ==> m[0] == daily[0]);
        assert(m == weekly ==> m[0] == weekly[0]);
        assert(m == monthly ==> m[0] == monthly[0]);
    }
}

/// A change of an activity is read from its members of these names; one without a field is none.
pub proof fn law_change_is_read_from_its_members(m: Seq<(Seq<char>, JsonView)>)
    ensures
        match change_of(JsonView::Object(m)) {
            Some(c) => json::find(m, "field"@) == Some(JsonView::Text(c.field)) && (json::find(
                m,
                "from"@,
            ) == Some(c.from) || (json::find(m, "from"@) is None && c.from is Null)) && (json::find(
                m,
                "to"@,
            ) == Some(c.to) || (json::find(m, "to"@) is None && c.to is Null)),
            None => !(json::find(m, "field"@) matches Some(JsonView::Text(_))),
        },
{
}

/// The changes that are read are those of the values that are changes, in their order.
pub proof fn law_changes_keep_their_order(values: Seq<JsonView>)
    ensures
        changes_of(values) == values.filter(|v: JsonView| change_of(v) is Some).map_values(
            |v: JsonView| change_of(v)->0,
        ),
    decreases values.len(),
{
    reveal(Seq::filter);
    let pred = |v: JsonView| change_of(v) is Some;
    let read = |v: JsonView| change_of(v)->0;
    if values.len() == 0 {
        assert(changes_of(values) =~= values.filter(pred).map_values(read));
    } else {
        law_changes_keep_their_order(values.drop_last());
        assert(changes_of(values) =~= values.filter(pred).map_values(read));
    }
}

/// The sizes that are known are those before the first that is not.
pub proof fn law_sizes_are_known_up_to_the_first_gap(sizes: Seq<Option<u64>>)
    ensures
        known_sizes(sizes).len() <= sizes.len(),
        forall|i: int|
            0 <= i < known_sizes(sizes).len() ==> sizes[i] == Some(#[trigger] known_sizes(sizes)[i]),
        known_sizes(sizes).len() < sizes.len() ==> sizes[known_sizes(sizes).len() as int] is None,
    decreases sizes.len(),
{
    if sizes.len() > 0 {
        if let Some(n) = sizes[0] {
            let rest = sizes.drop_first();
            law_sizes_are_known_up_to_the_first_gap(rest);
            let out = known_sizes(sizes);
            let tail = known_sizes(rest);
            assert(out =~= seq![n] + tail);
            assert forall|i: int| 0 <= i < out.len() implies sizes[i] == Some(
                #[trigger] out[i],
            ) by {
                if i > 0 {
                    assert(out[i] == tail[i - 1]);
                    assert(sizes[i] == rest[i - 1]);
                }
            }
            if out.len() < sizes.len() {
                assert(rest[tail.len() as int] == sizes[out.len() as int]);
            }
        }
    }
}

/// Each value of a task meta is answered under the name that it is kept by.
pub proof fn law_task_meta_is_answered_as_kept(row: TaskMetaRow, out: TaskMetaOutput)
    requires
        row.answered(&out),
    ensures
        ids::uuid_of(out.id@) == Some(row.id.0),
        ids::uuid_of(out.workspace_id@) == Some(row.workspace_id.0),
        ids::uuid_of(out.project_id@) == Some(row.project_id.0),
        out.number == row.number,
        out.title@ == row.title@,
        out.task_type@ == row.task_type@,
        out.priority@ == row.priority@,
        ids::uuid_of(out.status_id@) == Some(row.status_id.0),
        out.start_date == row.start_date,
        out.due_date == row.due_date,
        out.due_at == row.due_at,
        error::text_view(out.estimate) == error::text_view(row.estimate),
        match (row.parent_id, out.parent_id) {
            (Some(id), Some(s)) => ids::uuid_of(s@) == Some(id.0),
            (None, None) => true,
            _ => false,
        },
        match (row.milestone_id, out.milestone_id) {
            (Some(id), Some(s)) => ids::uuid_of(s@) == Some(id.0),
            (None, None) => true,
            _ => false,
        },
        json::json_view(out.recurrence) == json::json_view(row.recurrence),
        out.sort_key@ == row.sort_key@,
        out.schema_version == row.schema_version,
        out.version == row.version,
        out.archived_at == row.archived_at,
        ids::uuid_of(out.created_by@) == Some(row.created_by.0),
        out.created_at == row.created_at,
        out.updated_at == row.updated_at,
{
    ids::law_uuid_round_trip(row.id.0);
    ids::law_uuid_round_trip(row.workspace_id.0);
    ids::law_uuid_round_trip(row.project_id.0);
    ids::law_uuid_round_trip(row.status_id.0);
    if let Some(id) = row.parent_id {
        ids::law_uuid_round_trip(id.0);
    }
    if let Some(id) = row.milestone_id {
        ids::law_uuid_round_trip(id.0);
    }
    ids::law_uuid_round_trip(row.created_by.0);
}

/// Each value of a task list item is answered under the name that it is kept by.
pub proof fn law_task_list_item_is_answered_as_kept(row: TaskListItem, out: TaskListItemOutput)
    requires
        row.answered(&out),
    ensures
        row.meta.answered(&out.meta),
        text::views(out.assignee_ids@) == ids::uuid_texts(row.assignee_ids@),
        text::views(out.label_ids@) == ids::uuid_texts(row.label_ids@),
{
}

/// Each value of a task page is answered under the name that it is kept by.
pub proof fn law_task_page_is_answered_as_kept(row: TaskPage, out: TaskListResponse)
    requires
        row.answered(&out),
    ensures
        answer::all_answered(row.items@, out.items@),
        error::text_view(out.next_cursor) == error::text_view(row.next_cursor),
        answer::all_answered(row.status_counts@, out.status_counts@),
{
}

/// Each value of a label is answered under the name that it is kept by.
pub proof fn law_label_is_answered_as_kept(row: LabelRow, out: LabelOutput)
    requires
        row.answered(&out),
    ensures
        ids::uuid_of(out.id@) == Some(row.id.0),
        ids::uuid_of(out.project_id@) == Some(row.project_id.0),
        out.name@ == row.name@,
        out.color@ == row.color@,
{
    ids::law_uuid_round_trip(row.id.0);
    ids::law_uuid_round_trip(row.project_id.0);
}

/// Each value of a milestone is answered under the name that it is kept by.
pub proof fn law_milestone_is_answered_as_kept(row: MilestoneRow, out: MilestoneOutput)
    requires
        row.answered(&out),
    ensures
        ids::uuid_of(out.id@) == Some(row.id.0),
        ids::uuid_of(out.project_id@) == Some(row.project_id.0),
        out.name@ == row.name@,
        out.due_date == row.due_date,
        out.sort_key@ == row.sort_key@,
{
    ids::law_uuid_round_trip(row.id.0);
    ids::law_uuid_round_trip(row.project_id.0);
}

/// Each value of a task dependency edge is answered under the name that it is kept by.
pub proof fn law_task_dependency_edge_is_answered_as_kept(
    row: TaskDependencyEdge,
    out: TaskDependencyOutput,
)
    requires
        row.answered(&out),
    ensures
        ids::uuid_of(out.blocker_id@) == Some(row.blocker_id.0),
        ids::uuid_of(out.blocked_id@) == Some(row.blocked_id.0),
        out.dependency_type@ == row.dependency_type@,
        out.lag_days == row.lag_days,
{
    ids::law_uuid_round_trip(row.blocker_id.0);
    ids::law_uuid_round_trip(row.blocked_id.0);
}

/// Each value of a task parent is answered under the name that it is kept by.
pub proof fn law_task_parent_is_answered_as_kept(row: TaskParent, out: TaskParentOutput)
    requires
        row.answered(&out),
    ensures
        ids::uuid_of(out.id@) == Some(row.id.0),
        out.title@ == row.title@,
        out.task_type@ == row.task_type@,
        out.number == row.number,
{
    ids::law_uuid_round_trip(row.id.0);
}

/// Each value of a task child is answered under the name that it is kept by.
pub proof fn law_task_child_is_answered_as_kept(row: TaskChild, out: TaskChildOutput)
    requires
        row.answered(&out),
    ensures
        ids::uuid_of(out.id@) == Some(row.id.0),
        out.number == row.number,
        out.title@ == row.title@,
        out.task_type@ == row.task_type@,
        ids::uuid_of(out.status_id@) == Some(row.status_id.0),
{
    ids::law_uuid_round_trip(row.id.0);
    ids::law_uuid_round_trip(row.status_id.0);
}

/// Each value of a task is answered under the name that it is kept by.
pub proof fn law_task_is_answered_as_kept(row: TaskRow, out: TaskOutput)
    requires
        row.answered(&out),
    ensures
        row.meta.answered(&out.meta),
        out.content_json@ == row.content_json@,
        out.can_edit == row.can_edit,
        text::views(out.assignee_ids@) == ids::uuid_texts(row.assignee_ids@),
        text::views(out.label_ids@) == ids::uuid_texts(row.label_ids@),
        answer::all_answered(row.dependencies@, out.dependencies@),
        out.child_progress == row.child_progress,
        match row.parent {
            Some(parent) => out.parent matches Some(p) && parent.answered(&p),
            None => out.parent is None,
        },
        answer::all_answered(row.children@, out.children@),
{
}

/// An accepted change of a task changes a date exactly where the member of that name is there, and
/// to what it says.
pub proof fn law_accepted_change_takes_its_dates(
    body: PatchTaskBody,
    checks: TaskChecks,
    r: Result<PatchTaskMetaInput, ApiError>,
)
    requires
        call_ensures(parse_patch_body, (body, checks), r),
        r is Ok,
    ensures
        r->Ok_0.start_date is Unchanged <==> body.start_date is None,
        r->Ok_0.start_date is Clear <==> body.start_date == Some(None::<Date>),
        match body.start_date {
            Some(Some(v)) => r->Ok_0.start_date == FieldUpdate::Replace(v),
            _ => r->Ok_0.start_date !is Replace,
        },
        r->Ok_0.due_date is Unchanged <==> body.due_date is None,
        r->Ok_0.due_date is Clear <==> body.due_date == Some(None::<Date>),
        match body.due_date {
            Some(Some(v)) => r->Ok_0.due_date == FieldUpdate::Replace(v),
            _ => r->Ok_0.due_date !is Replace,
        },
        r->Ok_0.expected_dates == body.expected_dates,
{
    law_each_part_follows_its_member(body, r->Ok_0);
}

/// A change of a task is refused only where it changes nothing, lists too many ids, or has a part
/// that is not valid.
pub proof fn law_valid_change_is_accepted(
    body: PatchTaskBody,
    checks: TaskChecks,
    r: Result<PatchTaskMetaInput, ApiError>,
)
    requires
        call_ensures(parse_patch_body, (body, checks), r),
        checks.title || body.title is None,
        checks.task_type || body.task_type is None,
        checks.priority || body.priority is None,
        checks.estimate || !(body.estimate matches Some(Some(_))),
        body.recurrence matches Some(Some(v)) ==> known_recurrence(v@),
        body.assignee_ids matches Some(v) ==> v@.len() <= MAX_IDS,
        body.label_ids matches Some(v) ==> v@.len() <= MAX_IDS,
        body.title is Some || body.due_date is Some || body.start_date is Some || body.due_at is Some
            || body.estimate is Some || body.parent_id is Some || body.recurrence is Some
            || body.archived is Some || body.assignee_ids is Some || body.label_ids is Some
            || body.milestone_id is Some || body.status_id is Some || body.priority is Some
            || body.task_type is Some || body.expected_dates is Some,
    ensures
        r is Ok,
{
}

/// A page of activities holds the first of them, all where they fit, and says behind which of them
/// the next page begins exactly where there is more.
pub proof fn law_activity_page_holds_the_first(
    items: Vec<ActivityItemOutput>,
    sizes: &[Option<u64>],
    has_more: bool,
    r: Result<(Vec<ActivityItemOutput>, Option<usize>), ApiError>,
)
    requires
        sizes@.len() == items@.len(),
        call_ensures(activity_page_output, (items, sizes, has_more), r),
        r is Ok,
    ensures
        ({
            let kept = r->Ok_0.0@;
            let last = r->Ok_0.1;
            &&& kept.len() <= items@.len()
            &&& forall|i: int| 0 <= i < kept.len() ==> #[trigger] kept[i] == items@[i]
            &&& items@.len() > 0 && sizes@[0] is Some ==> kept.len() > 0
            &&& last is Some <==> kept.len() > 0 && (has_more || kept.len() < items@.len())
            &&& last matches Some(n) ==> n == kept.len() - 1
        }),
{
    let known = known_sizes(sizes@);
    law_sizes_are_known_up_to_the_first_gap(sizes@);
    let kept = r->Ok_0.0@;
    assert(r->Ok_0.0.len() == kept.len());
    if items@.len() > 0 && sizes@[0] is Some && kept.len() == 0 {
        assert(activity_fits(known, 1));
        assert(known.len() > 0);
    }
}

/// An activity is shown as what it is, with its own id and instant and by its own actor: a change
/// with its channel, kind and changes, a comment with its text, its reactions and what it answers.
pub proof fn law_activity_is_shown_as_kept(item: TaskActivityItem, out: ActivityItemOutput)
    requires
        shows_activity(item, out),
    ensures
        item is Change <==> out is Change,
        match (item, out) {
            (
                TaskActivityItem::Change(c),
                ActivityItemOutput::Change { id, created_at, actor, channel, kind, changes },
            ) => {
                &&& id == c.id
                &&& created_at == c.created_at
                &&& channel == c.channel
                &&& kind == c.kind
                &&& actor is Some <==> c.actor is Some
                &&& c.actor is Some ==> actor->0.id == c.actor->0.id && actor->0.name
                    == c.actor->0.name
                &&& change_views(changes@) == changes_of(json::items_view(c.changes@))
            },
            (
                TaskActivityItem::Comment(told),
                ActivityItemOutput::Comment { id, created_at, actor, comment, parent },
            ) => {
                &&& id == told.comment.id
                &&& created_at == told.comment.created_at
                &&& actor is Some <==> told.actor is Some
                &&& told.actor is Some ==> actor->0.id == told.actor->0.id && actor->0.name
                    == told.actor->0.name
                &&& comment.id == told.comment.id
                &&& comment.body == told.comment.body
                &&& comment.reactions == told.reactions.shown
                &&& parent is Some <==> told.parent is Some
                &&& told.parent is Some ==> parent->0.id == told.parent->0.id && parent->0.body
                    == told.parent->0.body
            },
            _ => false,
        },
{
}

/// A kind of dependency is taken where one is named, and a lag may not be below nothing.
pub proof fn law_dependency_is_taken_as_named<K>(
    lag_days: Option<i32>,
    named: bool,
    known: Option<K>,
    r: Result<Option<K>, ApiError>,
)
    requires
        call_ensures(dependency_input::<K>, (lag_days, named, known), r),
    ensures
        r is Ok <==> (lag_days is None || lag_days->0 >= 0) && (named ==> known is Some),
        r matches Ok(kind) ==> kind == if named {
            known
        } else {
            None
        },
{
}

} // verus!
