//! Time spent on tasks, candidates for parents, and the statuses of workflows.

use vstd::prelude::*;
use vstd::string::*;
use crate::answer;
use crate::answer::{Answer, answer_all};
use crate::error;
use crate::error::{ApiError, DbFailure, ProblemCode};
use crate::ids;
use crate::ids::Uuid;
use crate::number;
use crate::number::coerce;
use crate::routes::documents::copy_text;
use crate::routes::projects;
use crate::routes::projects::{StatusRow, WorkflowStatusOutput, status_output};
use crate::routes::tasks;
use crate::routes::tasks::{TaskDbError, TaskMetaOutput, TaskMetaRow, task_result};
use crate::text;
use crate::text::{trim, utf16_within};
use crate::time;
use crate::time::Timestamp;

verus! {

/// The most UTF-16 code units of a note and of a search for a parent.
pub const NOTE_MAX: usize = 2000;

pub const PARENT_QUERY_MAX: usize = 200;

/// The most bytes of a cursor.
pub const CURSOR_MAX: usize = 1024;

/// Time spent on a task, as the store keeps it.
#[derive(Debug)]
pub struct TimeEntryRow {
    pub id: Uuid,
    pub workspace_id: Uuid,
    pub task_id: Uuid,
    pub user_id: Uuid,
    pub started_at: Timestamp,
    pub ended_at: Option<Timestamp>,
    pub duration_seconds: Option<i32>,
    pub note: Option<String>,
}

/// Time spent on a task as it is answered.
#[derive(Debug)]
pub struct TimeEntryOutput {
    pub id: String,
    pub workspace_id: String,
    pub task_id: String,
    pub user_id: String,
    pub started_at: Timestamp,
    pub ended_at: Option<Timestamp>,
    pub duration_seconds: Option<i32>,
    pub note: Option<String>,
}

impl Answer for TimeEntryRow {
    type Out = TimeEntryOutput;

    open spec fn answered(&self, out: &TimeEntryOutput) -> bool {
        &&& out.id@ == ids::uuid_text(self.id.0)
        &&& out.workspace_id@ == ids::uuid_text(self.workspace_id.0)
        &&& out.task_id@ == ids::uuid_text(self.task_id.0)
        &&& out.user_id@ == ids::uuid_text(self.user_id.0)
        &&& out.started_at == self.started_at
        &&& out.ended_at == self.ended_at
        &&& out.duration_seconds == self.duration_seconds
        &&& error::text_view(out.note) == error::text_view(self.note)
    }

    fn answer(&self) -> (r: TimeEntryOutput) {
        TimeEntryOutput {
            id: self.id.text(),
            workspace_id: self.workspace_id.text(),
            task_id: self.task_id.text(),
            user_id: self.user_id.text(),
            started_at: self.started_at,
            ended_at: self.ended_at,
            duration_seconds: self.duration_seconds,
            note: copy_text(&self.note),
        }
    }
}

/// The times spent on a task, as the store keeps them.
#[derive(Debug)]
pub struct TimeEntries {
    pub can_create: bool,
    pub items: Vec<TimeEntryRow>,
}

/// The times spent on a task as they are answered.
#[derive(Debug)]
pub struct TimeEntryListResponse {
    pub can_create: bool,
    pub items: Vec<TimeEntryOutput>,
}

impl Answer for TimeEntries {
    type Out = TimeEntryListResponse;

    open spec fn answered(&self, out: &TimeEntryListResponse) -> bool {
        out.can_create == self.can_create && answer::all_answered(self.items@, out.items@)
    }

    fn answer(&self) -> (r: TimeEntryListResponse) {
        TimeEntryListResponse {
            can_create: self.can_create,
            items: answer_all(self.items.as_slice()),
        }
    }
}

/// The seconds of the times that have ended.
pub open spec fn total_seconds(rows: Seq<TimeEntryRow>) -> int
    decreases rows.len(),
{
    if rows.len() == 0 {
        0
    } else {
        total_seconds(rows.drop_last()) + match rows.last().duration_seconds {
            Some(n) => n as int,
            None => 0,
        }
    }
}

/// One of the times has not ended.
pub open spec fn any_open(rows: Seq<TimeEntryRow>) -> bool {
    exists|i: int| 0 <= i < rows.len() && (#[trigger] rows[i]).ended_at is None
}

/// The sum of the times spent on a task.
#[derive(Clone, Copy, Debug, PartialEq, Eq, Structural)]
pub struct TimeEntryRollupResponse {
    pub total_seconds: i64,
    pub open: bool,
}

/// Sums up the times spent on a task.
pub fn rollup(rows: &[TimeEntryRow]) -> (r: TimeEntryRollupResponse)
    requires
        rows@.len() < 0x1_0000_0000,
    ensures
        r.total_seconds == total_seconds(rows@),
        r.open == any_open(rows@),
{
    let mut sum: i64 = 0;
    let mut open: bool = false;
    let mut i: usize = 0;
    assert(rows@.subrange(0, 0).len() == 0);
    while i < rows.len()
        invariant
            i <= rows@.len() < 0x1_0000_0000,
            sum == total_seconds(rows@.subrange(0, i as int)),
            -0x8000_0000 * i <= sum <= 0x7fff_ffff * i,
            open == exists|j: int| 0 <= j < i && (#[trigger] rows@[j]).ended_at is None,
        decreases rows.len() - i,
    {
        proof {
            let next = rows@.subrange(0, i + 1);
            assert(next.drop_last() == rows@.subrange(0, i as int));
            assert(next.last() == rows@[i as int]);
        }
        if let Some(n) = rows[i].duration_seconds {
            sum = sum + n as i64;
        }
        if rows[i].ended_at.is_none() {
            assert(rows@[i as int].ended_at is None);
            open = true;
        }
        i = i + 1;
    }
    assert(rows@.subrange(0, i as int) == rows@);
    TimeEntryRollupResponse { total_seconds: sum, open }
}

/// An instant with whole milliseconds, the last not behind it.
pub open spec fn whole_millis(micros: int) -> int {
    micros / 1000 * 1000
}

/// Cuts an instant to milliseconds.
pub fn to_millis(at: Timestamp) -> (r: Timestamp)
    ensures
        r@ == whole_millis(at@),
{
    let micros: i64 = at.micros();
    let rest: i64 = micros % 1000;
    let cut: i64 = if rest < 0 {
        micros - rest - 1000
    } else {
        micros - rest
    };
    proof {
        assert(cut == whole_millis(micros as int));
        assert(time::in_calendar(cut as int));
    }
    match Timestamp::from_micros(cut) {
        Some(t) => t,
        None => at,
    }
}

/// Time spent on a task, to be recorded.
#[derive(Debug)]
pub struct CreateTimeEntryInput {
    pub started_at: Timestamp,
    pub ended_at: Option<Timestamp>,
    pub note: Option<String>,
}

/// Reads time spent on a task. `started` and `ended` are what the texts of the request say, none
/// where they say no instant; `has_end` is whether the request names an end.
pub fn time_entry_input(
    started: Option<Timestamp>,
    has_end: bool,
    ended: Option<Timestamp>,
    note: Option<String>,
) -> (r: Result<CreateTimeEntryInput, ApiError>)
    ensures
        if started is None || (has_end && (ended is None || whole_millis(ended->0@)
            <= whole_millis(started->0@))) || (note matches Some(n) && text::utf16_units(n@)
            > NOTE_MAX) {
            error::api_refused(r, ProblemCode::InvalidInput)
        } else {
            r matches Ok(input) && {
                &&& input.started_at@ == whole_millis(started->0@)
                &&& match input.ended_at {
                    Some(e) => has_end && e@ == whole_millis(ended->0@),
                    None => !has_end,
                }
                &&& input.note == note
            }
        },
{
    let started_at = match started {
        None => {
            return Err(ApiError::app(ProblemCode::InvalidInput));
        },
        Some(t) => to_millis(t),
    };
    let ended_at = if has_end {
        match ended {
            None => {
                return Err(ApiError::app(ProblemCode::InvalidInput));
            },
            Some(t) => {
                let end = to_millis(t);
                if end.micros() <= started_at.micros() {
                    return Err(ApiError::app(ProblemCode::InvalidInput));
                }
                Some(end)
            },
        }
    } else {
        None
    };
    if let Some(n) = &note {
        if !utf16_within(n.as_str(), NOTE_MAX) {
            return Err(ApiError::app(ProblemCode::InvalidInput));
        }
    }
    Ok(CreateTimeEntryInput { started_at, ended_at, note })
}

/// A copy of a task, as the store keeps it.
#[derive(Debug)]
pub struct TaskClone {
    pub meta: TaskMetaRow,
    pub display_id: Option<String>,
}

/// A copy of a task as it is answered.
#[derive(Debug)]
pub struct TaskCloneOutput {
    pub meta: TaskMetaOutput,
    pub display_id: Option<String>,
}

impl Answer for TaskClone {
    type Out = TaskCloneOutput;

    open spec fn answered(&self, out: &TaskCloneOutput) -> bool {
        self.meta.answered(&out.meta) && error::text_view(out.display_id) == error::text_view(
            self.display_id,
        )
    }

    fn answer(&self) -> (r: TaskCloneOutput) {
        TaskCloneOutput { meta: self.meta.answer(), display_id: copy_text(&self.display_id) }
    }
}

/// The workspace of a task that is asked for by its id alone.
pub fn located_task(found: Result<Option<Uuid>, DbFailure>) -> (r: Result<Uuid, ApiError>)
    ensures
        match found {
            Err(_) => error::api_refused(r, ProblemCode::Internal),
            Ok(None) => error::api_refused(r, ProblemCode::NotFound),
            Ok(Some(id)) => r == Ok::<_, ApiError>(id),
        },
{
    match found {
        Err(_) => Err(ApiError::app(ProblemCode::Internal)),
        Ok(None) => Err(ApiError::app(ProblemCode::NotFound)),
        Ok(Some(id)) => Ok(id),
    }
}

/// The query of a search for a parent.
#[derive(Debug)]
pub struct TaskParentQueryParams {
    pub q: Option<String>,
    pub child_type: Option<String>,
    pub exclude_task_id: Option<String>,
    pub cursor: Option<String>,
    pub limit: Option<String>,
}

/// A search for a parent.
#[derive(Debug)]
pub struct TaskParentQuery {
    pub q: String,
    pub child_type: String,
    pub exclude_task_id: Option<Uuid>,
    pub cursor: Option<String>,
    pub limit: u64,
}

/// The text that is searched for.
pub open spec fn parent_text(q: Option<String>) -> Seq<char> {
    match q {
        Some(s) => text::trimmed(s@),
        None => Seq::empty(),
    }
}

/// The number of results that is asked for: a whole number between one and `max`, or `max`.
pub open spec fn page_size(limit: Option<String>, max: u64, n: u64) -> bool {
    match limit {
        Some(s) => number::coerced(text::trimmed(s@), max as nat, Some(n)),
        None => n == max,
    }
}

/// The number of results that is asked for is none.
pub open spec fn no_page_size(limit: Option<String>, max: u64) -> bool {
    limit matches Some(s) && number::coerced(text::trimmed(s@), max as nat, None)
}

/// A search for a parent is not one, but for the number of results. `type_ok` is whether the type
/// of the child is one.
pub open spec fn parent_query_invalid(params: TaskParentQueryParams, type_ok: bool) -> bool {
    ||| text::utf16_units(parent_text(params.q)) > PARENT_QUERY_MAX
    ||| params.child_type is None
    ||| !type_ok
    ||| params.exclude_task_id matches Some(id) && ids::uuid_of(id@) is None
    ||| params.cursor matches Some(c) && vstd::utf8::encode_utf8(c@).len() > CURSOR_MAX
}

/// Reads a search for a parent.
pub fn parse_parent_query(params: TaskParentQueryParams, type_ok: bool, max: u64) -> (r: Result<
    TaskParentQuery,
    ApiError,
>)
    requires
        max < 0xffff_ffff,
    ensures
        match r {
            Err(e) => (parent_query_invalid(params, type_ok) || no_page_size(params.limit, max))
                && e@ == error::api_problem(ProblemCode::InvalidInput),
            Ok(query) => {
                &&& !parent_query_invalid(params, type_ok)
                &&& query.q@ == parent_text(params.q)
                &&& params.child_type == Some(query.child_type)
                &&& query.exclude_task_id == match params.exclude_task_id {
                    Some(id) => ids::some_uuid(ids::uuid_of(id@)),
                    None => None,
                }
                &&& query.cursor == params.cursor
                &&& page_size(params.limit, max, query.limit)
            },
        },
{
    let q: String = match &params.q {
        Some(s) => trim(s.as_str()).to_owned(),
        None => {
            let none = String::new();
            assert(none@ == Seq::<char>::empty());
            none
        },
    };
    if !utf16_within(q.as_str(), PARENT_QUERY_MAX) {
        return Err(ApiError::app(ProblemCode::InvalidInput));
    }
    let child_type = match params.child_type {
        None => {
            return Err(ApiError::app(ProblemCode::InvalidInput));
        },
        Some(t) => t,
    };
    if !type_ok {
        return Err(ApiError::app(ProblemCode::InvalidInput));
    }
    let exclude_task_id = match &params.exclude_task_id {
        None => None,
        Some(raw) => match Uuid::parse_str(raw.as_str()) {
            None => {
                return Err(ApiError::app(ProblemCode::InvalidInput));
            },
            Some(id) => Some(id),
        },
    };
    if let Some(c) = &params.cursor {
        if c.as_str().as_bytes().len() > CURSOR_MAX {
            return Err(ApiError::app(ProblemCode::InvalidInput));
        }
    }
    let limit: u64 = match &params.limit {
        None => max,
        Some(raw) => match coerce(trim(raw.as_str()), max) {
            None => {
                return Err(ApiError::app(ProblemCode::InvalidInput));
            },
            Some(n) => n,
        },
    };
    Ok(TaskParentQuery { q, child_type, exclude_task_id, cursor: params.cursor, limit })
}

/// A candidate for a parent, as the store keeps it.
#[derive(Debug)]
pub struct ParentCandidate {
    pub id: Uuid,
    pub title: String,
    pub display_id: Option<String>,
    pub task_type: String,
}

/// A candidate for a parent as it is answered.
#[derive(Debug)]
pub struct TaskParentCandidateOutput {
    pub id: String,
    pub title: String,
    pub display_id: Option<String>,
    pub task_type: String,
}

impl Answer for ParentCandidate {
    type Out = TaskParentCandidateOutput;

    open spec fn answered(&self, out: &TaskParentCandidateOutput) -> bool {
        &&& out.id@ == ids::uuid_text(self.id.0)
        &&& out.title@ == self.title@
        &&& error::text_view(out.display_id) == error::text_view(self.display_id)
        &&& out.task_type@ == self.task_type@
    }

    fn answer(&self) -> (r: TaskParentCandidateOutput) {
        TaskParentCandidateOutput {
            id: self.id.text(),
            title: self.title.clone(),
            display_id: copy_text(&self.display_id),
            task_type: self.task_type.clone(),
        }
    }
}

/// A page of candidates, as the store hands it out.
#[derive(Debug)]
pub struct ParentPage {
    pub items: Vec<ParentCandidate>,
    pub next_cursor: Option<String>,
}

/// A page of candidates as it is answered.
#[derive(Debug)]
pub struct TaskParentListResponse {
    pub items: Vec<TaskParentCandidateOutput>,
    pub next_cursor: Option<String>,
}

impl Answer for ParentPage {
    type Out = TaskParentListResponse;

    open spec fn answered(&self, out: &TaskParentListResponse) -> bool {
        answer::all_answered(self.items@, out.items@) && error::text_view(out.next_cursor)
            == error::text_view(self.next_cursor)
    }

    fn answer(&self) -> (r: TaskParentListResponse) {
        TaskParentListResponse {
            items: answer_all(self.items.as_slice()),
            next_cursor: copy_text(&self.next_cursor),
        }
    }
}

/// A status of a workspace, as the store keeps it.
#[derive(Debug)]
pub struct WorkspaceStatusRow {
    pub id: Uuid,
    pub workflow_id: Uuid,
    pub project_id: Uuid,
    pub name: String,
    pub sort_key: String,
    pub category: String,
    pub wip_limit: Option<i32>,
}

/// A status of a workspace as it is answered.
#[derive(Debug)]
pub struct WorkspaceStatusOutput {
    pub id: String,
    pub workflow_id: String,
    pub project_id: String,
    pub name: String,
    pub sort_key: String,
    pub category: String,
    pub wip_limit: Option<i32>,
}

impl Answer for WorkspaceStatusRow {
    type Out = WorkspaceStatusOutput;

    open spec fn answered(&self, out: &WorkspaceStatusOutput) -> bool {
        &&& out.id@ == ids::uuid_text(self.id.0)
        &&& out.workflow_id@ == ids::uuid_text(self.workflow_id.0)
        &&& out.project_id@ == ids::uuid_text(self.project_id.0)
        &&& out.name@ == self.name@
        &&& out.sort_key@ == self.sort_key@
        &&& out.category@ == self.category@
        &&& out.wip_limit == self.wip_limit
    }

    fn answer(&self) -> (r: WorkspaceStatusOutput) {
        WorkspaceStatusOutput {
            id: self.id.text(),
            workflow_id: self.workflow_id.text(),
            project_id: self.project_id.text(),
            name: self.name.clone(),
            sort_key: self.sort_key.clone(),
            category: self.category.clone(),
            wip_limit: self.wip_limit,
        }
    }
}

/// How many tasks may have a status: a whole number from one on that a column of 32 bits holds, or
/// no limit. `value` is the text of the number.
pub fn parse_wip_limit(value: Option<&str>) -> (r: Result<Option<i32>, ApiError>)
    ensures
        match value {
            None => r == Ok::<Option<i32>, ApiError>(None),
            Some(s) => match r {
                Ok(Some(n)) => n >= 1 && number::coerced(s@, i32::MAX as nat, Some(n as u64)),
                Ok(None) => false,
                Err(e) => number::coerced(s@, i32::MAX as nat, None) && e@ == error::api_problem(
                    ProblemCode::InvalidInput,
                ),
            },
        },
{
    match value {
        None => Ok(None),
        Some(s) => match coerce(s, i32::MAX as u64) {
            None => Err(ApiError::app(ProblemCode::InvalidInput)),
            Some(n) => Ok(Some(n as i32)),
        },
    }
}

/// The name of a status without white space around it; `ok` is whether that is one.
pub fn parse_status_name(raw: &str, ok: bool) -> (r: Result<String, ApiError>)
    ensures
        if ok {
            r matches Ok(name) && name@ == text::trimmed(raw@)
        } else {
            error::api_refused(r, ProblemCode::InvalidInput)
        },
{
    if ok {
        Ok(trim(raw).to_owned())
    } else {
        Err(ApiError::app(ProblemCode::InvalidInput))
    }
}

/// A status of a workflow, to be created.
#[derive(Debug)]
pub struct CreateStatusInput {
    pub name: String,
    pub category: String,
    pub wip_limit: Option<i32>,
}

/// Reads a status to be created.
pub fn create_status_input(
    name: &str,
    name_ok: bool,
    category: String,
    category_ok: bool,
    wip_limit: Option<&str>,
) -> (r: Result<CreateStatusInput, ApiError>)
    ensures
        match r {
            Ok(input) => {
                &&& name_ok && category_ok
                &&& input.name@ == text::trimmed(name@)
                &&& input.category == category
                &&& match (wip_limit, input.wip_limit) {
                    (None, None) => true,
                    (Some(s), Some(n)) => n >= 1 && number::coerced(
                        s@,
                        i32::MAX as nat,
                        Some(n as u64),
                    ),
                    _ => false,
                }
            },
            Err(e) => e@ == error::api_problem(ProblemCode::InvalidInput) && (!name_ok
                || !category_ok || (wip_limit matches Some(s) && number::coerced(
                s@,
                i32::MAX as nat,
                None,
            ))),
        },
{
    let name = match parse_status_name(name, name_ok) {
        Err(e) => {
            return Err(e);
        },
        Ok(n) => n,
    };
    if !category_ok {
        return Err(ApiError::app(ProblemCode::InvalidInput));
    }
    match parse_wip_limit(wip_limit) {
        Err(e) => Err(e),
        Ok(wip_limit) => Ok(CreateStatusInput { name, category, wip_limit }),
    }
}

/// The body of a change of a status.
#[derive(Debug)]
pub struct StatusPatchBody {
    pub name: Option<String>,
    pub category: Option<String>,
    /// The text of a number; none within where it is null.
    pub wip_limit: Option<Option<String>>,
    pub before_id: Option<Uuid>,
    pub after_id: Option<Uuid>,
}

/// Where a status is put.
#[derive(Clone, Copy, Debug, PartialEq, Eq, Structural)]
pub enum StatusAnchor {
    Before(Uuid),
    After(Uuid),
}

/// A change of a status.
#[derive(Debug)]
pub struct UpdateStatusInput {
    pub name: Option<String>,
    pub category: Option<String>,
    pub wip_limit: Option<Option<i32>>,
    pub anchor: Option<StatusAnchor>,
}

/// The limit of a change is not one.
pub open spec fn wip_invalid(wip_limit: Option<Option<String>>) -> bool {
    wip_limit matches Some(Some(s)) && number::coerced(s@, i32::MAX as nat, None)
}

/// A change of a status is not one, but for its limit: it changes nothing, names two places, or has
/// a part that is not valid.
pub open spec fn status_patch_invalid(body: StatusPatchBody, name_ok: bool, category_ok: bool) -> bool {
    ||| body.name is None && body.category is None && body.wip_limit is None && body.before_id
        is None && body.after_id is None
    ||| body.before_id is Some && body.after_id is Some
    ||| body.name is Some && !name_ok
    ||| body.category is Some && !category_ok
}

/// The limit that a change asks for.
pub open spec fn wip_asked(asked: Option<Option<String>>, limit: Option<Option<i32>>) -> bool {
    match (asked, limit) {
        (None, None) => true,
        (Some(None), Some(None)) => true,
        (Some(Some(s)), Some(Some(n))) => n >= 1 && number::coerced(
            s@,
            i32::MAX as nat,
            Some(n as u64),
        ),
        _ => false,
    }
}

/// Reads a change of a status.
pub fn update_status_input(body: StatusPatchBody, name_ok: bool, category_ok: bool) -> (r: Result<
    UpdateStatusInput,
    ApiError,
>)
    ensures
        match r {
            Err(e) => (status_patch_invalid(body, name_ok, category_ok) || wip_invalid(
                body.wip_limit,
            )) && e@ == error::api_problem(ProblemCode::InvalidInput),
            Ok(input) => {
                &&& !status_patch_invalid(body, name_ok, category_ok)
                &&& match body.name {
                    Some(n) => input.name matches Some(m) && m@ == text::trimmed(n@),
                    None => input.name is None,
                }
                &&& input.category == body.category
                &&& wip_asked(body.wip_limit, input.wip_limit)
                &&& input.anchor == match (body.before_id, body.after_id) {
                    (Some(id), _) => Some(StatusAnchor::Before(id)),
                    (None, Some(id)) => Some(StatusAnchor::After(id)),
                    (None, None) => None,
                }
            },
        },
{
    if body.name.is_none() && body.category.is_none() && body.wip_limit.is_none()
        && body.before_id.is_none() && body.after_id.is_none() {
        return Err(ApiError::app(ProblemCode::InvalidInput));
    }
    let anchor = match (body.before_id, body.after_id) {
        (Some(_), Some(_)) => {
            return Err(ApiError::app(ProblemCode::InvalidInput));
        },
        (Some(id), None) => Some(StatusAnchor::Before(id)),
        (None, Some(id)) => Some(StatusAnchor::After(id)),
        (None, None) => None,
    };
    let name = match &body.name {
        None => None,
        Some(raw) => match parse_status_name(raw.as_str(), name_ok) {
            Err(e) => {
                return Err(e);
            },
            Ok(n) => Some(n),
        },
    };
    if body.category.is_some() && !category_ok {
        return Err(ApiError::app(ProblemCode::InvalidInput));
    }
    let wip_limit = match &body.wip_limit {
        None => None,
        Some(None) => Some(None),
        Some(Some(s)) => match parse_wip_limit(Some(s.as_str())) {
            Err(e) => {
                return Err(e);
            },
            Ok(limit) => Some(limit),
        },
    };
    Ok(UpdateStatusInput { name, category: body.category, wip_limit, anchor })
}

/// A status with its workflow, as the store keeps it.
#[derive(Debug)]
pub struct StatusInWorkflow {
    pub workflow_id: Uuid,
    pub status: StatusRow,
}

impl Answer for StatusInWorkflow {
    type Out = WorkflowStatusOutput;

    open spec fn answered(&self, out: &WorkflowStatusOutput) -> bool {
        projects::answers_status(self.status, self.workflow_id, *out)
    }

    fn answer(&self) -> (r: WorkflowStatusOutput) {
        status_output(&self.status, self.workflow_id)
    }
}

/// The answer with the sum of the times spent on a task.
pub fn rollup_reply(found: Result<Result<TimeEntries, TaskDbError>, DbFailure>) -> (r: Result<
    TimeEntryRollupResponse,
    ApiError,
>)
    requires
        found matches Ok(Ok(list)) ==> list.items@.len() < 0x1_0000_0000,
    ensures
        match found {
            Err(_) => error::api_refused(r, ProblemCode::Internal),
            Ok(Err(err)) => r matches Err(e) && e@ == tasks::task_problem(err),
            Ok(Ok(list)) => r matches Ok(sum) && sum.total_seconds == total_seconds(list.items@)
                && sum.open == any_open(list.items@),
        },
{
    match task_result(found) {
        Err(e) => Err(e),
        Ok(list) => Ok(rollup(list.items.as_slice())),
    }
}

/// The time of entries together is the sum of what each took; one that has no duration adds
/// nothing.
pub proof fn law_times_add_up(a: Seq<TimeEntryRow>, b: Seq<TimeEntryRow>)
    ensures
        total_seconds(a + b) == total_seconds(a) + total_seconds(b),
        a.len() == 1 ==> total_seconds(a) == match a[0].duration_seconds {
            Some(n) => n as int,
            None => 0,
        },
        any_open(a + b) <==> any_open(a) || any_open(b),
    decreases b.len(),
{
    if b.len() == 0 {
        assert(a + b =~= a);
    } else {
        law_times_add_up(a, b.drop_last());
        assert((a + b).drop_last() =~= a + b.drop_last());
        assert((a + b).last() == b.last());
    }
    if a.len() == 1 {
        assert(total_seconds(a.drop_last()) == 0);
        assert(a.last() == a[0]);
    }
    if any_open(a + b) {
        let i = choose|i: int| 0 <= i < (a + b).len() && (#[trigger] (a + b)[i]).ended_at is None;
        if i < a.len() {
            assert(a[i].ended_at is None);
        } else {
            assert(b[i - a.len()].ended_at is None);
        }
    }
    if any_open(a) {
        let i = choose|i: int| 0 <= i < a.len() && (#[trigger] a[i]).ended_at is None;
        assert((a + b)[i].ended_at is None);
    }
    if any_open(b) {
        let i = choose|i: int| 0 <= i < b.len() && (#[trigger] b[i]).ended_at is None;
        assert((a + b)[a.len() + i].ended_at is None);
    }
}

/// An instant in whole milliseconds is the last such instant that is not behind it.
pub proof fn law_whole_millis_are_not_behind(micros: int)
    ensures
        whole_millis(micros) <= micros < whole_millis(micros) + 1000,
        whole_millis(micros) % 1000 == 0,
        whole_millis(whole_millis(micros)) == whole_millis(micros),
{
}

/// A change of a status is refused only where it changes nothing, names both neighbours, or has a
/// part that is not valid; each part alone is enough to be one.
pub proof fn law_status_change_has_a_part(body: StatusPatchBody, name_ok: bool, category_ok: bool)
    ensures
        !status_patch_invalid(body, name_ok, category_ok) ==> body.name is Some || body.category
            is Some || body.wip_limit is Some || body.before_id is Some || body.after_id is Some,
        body.before_id is Some && body.after_id is Some ==> status_patch_invalid(
            body,
            name_ok,
            category_ok,
        ),
        (body.name is Some || body.category is Some || body.wip_limit is Some || body.before_id
            is Some || body.after_id is Some) && (body.before_id is None || body.after_id is None)
            && (body.name is Some ==> name_ok) && (body.category is Some ==> category_ok)
            ==> !status_patch_invalid(body, name_ok, category_ok),
{
}

/// Each value of a time entry is answered under the name that it is kept by.
pub proof fn law_time_entry_is_answered_as_kept(row: TimeEntryRow, out: TimeEntryOutput)
    requires
        row.answered(&out),
    ensures
        ids::uuid_of(out.id@) == Some(row.id.0),
        ids::uuid_of(out.workspace_id@) == Some(row.workspace_id.0),
        ids::uuid_of(out.task_id@) == Some(row.task_id.0),
        ids::uuid_of(out.user_id@) == Some(row.user_id.0),
        out.started_at == row.started_at,
        out.ended_at == row.ended_at,
        out.duration_seconds == row.duration_seconds,
        error::text_view(out.note) == error::text_view(row.note),
{
    ids::law_uuid_round_trip(row.id.0);
    ids::law_uuid_round_trip(row.workspace_id.0);
    ids::law_uuid_round_trip(row.task_id.0);
    ids::law_uuid_round_trip(row.user_id.0);
}

/// Each value of a parent candidate is answered under the name that it is kept by.
pub proof fn law_parent_candidate_is_answered_as_kept(
    row: ParentCandidate,
    out: TaskParentCandidateOutput,
)
    requires
        row.answered(&out),
    ensures
        ids::uuid_of(out.id@) == Some(row.id.0),
        out.title@ == row.title@,
        error::text_view(out.display_id) == error::text_view(row.display_id),
        out.task_type@ == row.task_type@,
{
    ids::law_uuid_round_trip(row.id.0);
}

/// Each value of a workspace status is answered under the name that it is kept by.
pub proof fn law_workspace_status_is_answered_as_kept(
    row: WorkspaceStatusRow,
    out: WorkspaceStatusOutput,
)
    requires
        row.answered(&out),
    ensures
        ids::uuid_of(out.id@) == Some(row.id.0),
        ids::uuid_of(out.workflow_id@) == Some(row.workflow_id.0),
        ids::uuid_of(out.project_id@) == Some(row.project_id.0),
        out.name@ == row.name@,
        out.sort_key@ == row.sort_key@,
        out.category@ == row.category@,
        out.wip_limit == row.wip_limit,
{
    ids::law_uuid_round_trip(row.id.0);
    ids::law_uuid_round_trip(row.workflow_id.0);
    ids::law_uuid_round_trip(row.project_id.0);
}

/// A time entry is made from the instants that were given, in whole milliseconds, with an end
/// exactly where one was given, and an end is behind its start.
pub proof fn law_time_entry_is_made_as_asked(
    started: Option<Timestamp>,
    has_end: bool,
    ended: Option<Timestamp>,
    note: Option<String>,
    r: Result<CreateTimeEntryInput, ApiError>,
)
    requires
        call_ensures(time_entry_input, (started, has_end, ended, note), r),
        r is Ok,
    ensures
        ({
            let input = r->Ok_0;
            &&& started is Some
            &&& input.started_at@ <= started->0@ < input.started_at@ + 1000
            &&& input.started_at@ % 1000 == 0
            &&& input.ended_at is Some <==> has_end
            &&& input.ended_at matches Some(e) ==> e@ <= ended->0@ < e@ + 1000 && e@ % 1000 == 0
                && input.started_at@ < e@
            &&& input.note == note
        }),
{
    law_whole_millis_are_not_behind(started->0@);
    if has_end {
        law_whole_millis_are_not_behind(ended->0@);
    }
}

/// A status is changed in what was given alone: it goes before or behind the neighbour that was
/// named.
pub proof fn law_status_is_changed_as_asked(
    body: StatusPatchBody,
    name_ok: bool,
    category_ok: bool,
    r: Result<UpdateStatusInput, ApiError>,
)
    requires
        call_ensures(update_status_input, (body, name_ok, category_ok), r),
        r is Ok,
    ensures
        ({
            let input = r->Ok_0;
            &&& input.name is Some <==> body.name is Some
            &&& body.name matches Some(n) ==> input.name->0@ == text::trimmed(n@)
            &&& input.category == body.category
            &&& input.wip_limit is Some <==> body.wip_limit is Some
            &&& body.wip_limit == Some(None::<String>) <==> input.wip_limit == Some(None::<i32>)
            &&& match input.anchor {
                Some(StatusAnchor::Before(id)) => body.before_id == Some(id) && body.after_id
                    is None,
                Some(StatusAnchor::After(id)) => body.after_id == Some(id) && body.before_id
                    is None,
                None => body.before_id is None && body.after_id is None,
            }
        }),
{
}

/// A status is made with the name that was given, trimmed, in the category that was given, and with
/// a limit exactly where one was given.
pub proof fn law_status_is_made_as_asked(
    name: &str,
    category: String,
    wip_limit: Option<&str>,
    r: Result<CreateStatusInput, ApiError>,
)
    requires
        call_ensures(create_status_input, (name, true, category, true, wip_limit), r),
        r is Ok,
    ensures
        r->Ok_0.name@ == text::trimmed(name@),
        r->Ok_0.category == category,
        match (wip_limit, r->Ok_0.wip_limit) {
            (Some(s), Some(n)) => 1 <= n && number::reads_as(s@, n as nat),
            (None, None) => true,
            _ => false,
        },
{
}

/// A search for a parent asks for what the query says, part by part.
pub proof fn law_parent_query_is_asked_as_given(
    params: TaskParentQueryParams,
    max: u64,
    r: Result<TaskParentQuery, ApiError>,
)
    requires
        max < 0xffff_ffff,
        call_ensures(parse_parent_query, (params, true, max), r),
        r is Ok,
    ensures
        ({
            let query = r->Ok_0;
            &&& params.child_type == Some(query.child_type)
            &&& query.cursor == params.cursor
            &&& match params.q {
                Some(q) => query.q@ == text::trimmed(q@),
                None => query.q@.len() == 0,
            }
            &&& match (params.exclude_task_id, query.exclude_task_id) {
                (Some(s), Some(id)) => ids::uuid_of(s@) == Some(id.0),
                (None, None) => true,
                _ => false,
            }
            &&& match params.limit {
                Some(s) => number::reads_as(text::trimmed(s@), query.limit as nat) && 1
                    <= query.limit <= max,
                None => query.limit == max,
            }
        }),
{
}

} // verus!
