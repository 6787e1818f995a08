//! Projects, their members and their workflows.

use vstd::prelude::*;
use crate::answer;
use crate::answer::{Answer, answer_all};
use crate::error;
use crate::error::{AppError, DbFailure, ProblemCode};
use crate::ids;
use crate::ids::{Uuid, text_of};
use crate::routes::account::OkResponse;
use crate::routes::documents::copy_text;
use crate::text::same;
use crate::time::Timestamp;

verus! {

/// Why the store refused something about a project.
#[derive(Clone, Copy, Debug, PartialEq, Eq, Structural)]
pub enum ProjectDbError {
    NotFound,
    Forbidden,
    Conflict,
    LastLead,
    GuestLead,
    LeadNotMember,
    Archived,
    VersionConflict,
    TaskArchived,
    InvalidAnchor,
    StatusNotInWorkflow,
    WipLimitExceeded,
    InvalidMoveAnchors,
    InvalidCursor,
}

/// The problem that a refusal of the store ends in.
pub open spec fn project_problem(err: ProjectDbError) -> error::ErrorView {
    match err {
        ProjectDbError::NotFound => error::problem(ProblemCode::NotFound),
        ProjectDbError::Forbidden => error::problem(ProblemCode::NotFound),
        ProjectDbError::Conflict => error::problem(ProblemCode::Conflict),
        ProjectDbError::LastLead => error::problem(ProblemCode::Conflict),
        ProjectDbError::GuestLead => error::problem(ProblemCode::Conflict),
        ProjectDbError::LeadNotMember => error::problem(ProblemCode::Conflict),
        ProjectDbError::Archived => error::problem(ProblemCode::ProjectArchived),
        ProjectDbError::VersionConflict => error::problem_detail(
            409,
            ProblemCode::Conflict,
            "document_version_mismatch"@,
        ),
        ProjectDbError::TaskArchived => error::problem(ProblemCode::Conflict),
        ProjectDbError::InvalidAnchor => error::problem(ProblemCode::Conflict),
        ProjectDbError::StatusNotInWorkflow => error::problem_detail(
            400,
            ProblemCode::InvalidInput,
            "status_not_in_project_workflow"@,
        ),
        ProjectDbError::WipLimitExceeded => error::problem_detail(
            409,
            ProblemCode::Conflict,
            "wip_limit_exceeded"@,
        ),
        ProjectDbError::InvalidMoveAnchors => error::problem(ProblemCode::InvalidInput),
        ProjectDbError::InvalidCursor => error::problem_detail(
            400,
            ProblemCode::InvalidInput,
            "invalid_cursor"@,
        ),
    }
}

pub fn map_project_error(err: ProjectDbError) -> (r: AppError)
    ensures
        r@ == project_problem(err),
{
    match err {
        ProjectDbError::NotFound => AppError::from_code(ProblemCode::NotFound),
        ProjectDbError::Forbidden => AppError::from_code(ProblemCode::NotFound),
        ProjectDbError::Conflict => AppError::from_code(ProblemCode::Conflict),
        ProjectDbError::LastLead => AppError::from_code(ProblemCode::Conflict),
        ProjectDbError::GuestLead => AppError::from_code(ProblemCode::Conflict),
        ProjectDbError::LeadNotMember => AppError::from_code(ProblemCode::Conflict),
        ProjectDbError::Archived => AppError::from_code(ProblemCode::ProjectArchived),
        ProjectDbError::VersionConflict => AppError::detail(
            409,
            ProblemCode::Conflict,
            "document_version_mismatch",
        ),
        ProjectDbError::TaskArchived => AppError::from_code(ProblemCode::Conflict),
        ProjectDbError::InvalidAnchor => AppError::from_code(ProblemCode::Conflict),
        ProjectDbError::StatusNotInWorkflow => AppError::detail(
            400,
            ProblemCode::InvalidInput,
            "status_not_in_project_workflow",
        ),
        ProjectDbError::WipLimitExceeded => AppError::detail(
            409,
            ProblemCode::Conflict,
            "wip_limit_exceeded",
        ),
        ProjectDbError::InvalidMoveAnchors => AppError::from_code(ProblemCode::InvalidInput),
        ProjectDbError::InvalidCursor => AppError::detail(
            400,
            ProblemCode::InvalidInput,
            "invalid_cursor",
        ),
    }
}

/// What the store made of a request about a project.
pub fn project_result<T>(found: Result<Result<T, ProjectDbError>, DbFailure>) -> (r: Result<
    T,
    AppError,
>)
    ensures
        match found {
            Err(_) => error::refused(r, ProblemCode::Internal),
            Ok(Err(err)) => r matches Err(e) && e@ == project_problem(err),
            Ok(Ok(t)) => r == Ok::<T, AppError>(t),
        },
{
    match found {
        Err(_) => Err(AppError::internal()),
        Ok(Err(err)) => Err(map_project_error(err)),
        Ok(Ok(t)) => Ok(t),
    }
}

/// The answer to a change that has nothing to show.
pub fn project_done(done: Result<Result<(), ProjectDbError>, DbFailure>) -> (r: Result<
    OkResponse,
    AppError,
>)
    ensures
        match done {
            Err(_) => error::refused(r, ProblemCode::Internal),
            Ok(Err(err)) => r matches Err(e) && e@ == project_problem(err),
            Ok(Ok(_)) => r == Ok::<_, AppError>(OkResponse { ok: true }),
        },
{
    match project_result(done) {
        Err(e) => Err(e),
        Ok(_) => Ok(OkResponse { ok: true }),
    }
}

/// Why a key is not one of a project.
#[derive(Clone, Copy, Debug, PartialEq, Eq, Structural)]
pub enum ProjectKeyError {
    Reserved,
    InvalidPattern,
}

pub fn map_key_error(err: ProjectKeyError) -> (r: AppError)
    ensures
        r@ == match err {
            ProjectKeyError::Reserved => error::problem_detail(
                400,
                ProblemCode::InvalidInput,
                "project.key.reserved"@,
            ),
            ProjectKeyError::InvalidPattern => error::problem(ProblemCode::InvalidInput),
        },
{
    match err {
        ProjectKeyError::Reserved => AppError::detail(
            400,
            ProblemCode::InvalidInput,
            "project.key.reserved",
        ),
        ProjectKeyError::InvalidPattern => AppError::from_code(ProblemCode::InvalidInput),
    }
}

/// Who sees a project: its members, or the workspace.
pub open spec fn known_visibility(v: Seq<char>) -> bool {
    v == "private"@ || v == "workspace"@
}

fn is_visibility(v: &str) -> (r: bool)
    ensures
        r == known_visibility(v@),
{
    same(v, "private") || same(v, "workspace")
}

/// Checks a project to be created: its key, its name, who sees it, and how it is described. What
/// the rules for projects say of the key, the name, the description and the icon is given.
pub fn check_new_project(
    key: Result<String, ProjectKeyError>,
    name_ok: bool,
    visibility: &str,
    description_ok: bool,
    icon_ok: bool,
) -> (r: Result<String, AppError>)
    ensures
        match key {
            Err(ProjectKeyError::Reserved) => r matches Err(e) && e@ == error::problem_detail(
                400,
                ProblemCode::InvalidInput,
                "project.key.reserved"@,
            ),
            Err(ProjectKeyError::InvalidPattern) => error::refused(r, ProblemCode::InvalidInput),
            Ok(k) => if name_ok && known_visibility(visibility@) && description_ok && icon_ok {
                r == Ok::<_, AppError>(k)
            } else {
                error::refused(r, ProblemCode::InvalidInput)
            },
        },
{
    let key = match key {
        Err(err) => {
            return Err(map_key_error(err));
        },
        Ok(key) => key,
    };
    if !name_ok || !is_visibility(visibility) || !description_ok || !icon_ok {
        return Err(AppError::from_code(ProblemCode::InvalidInput));
    }
    Ok(key)
}

/// Checks a change of a project: what is given has to be valid.
pub fn check_project_patch(
    name_ok: bool,
    visibility: Option<&str>,
    description_ok: bool,
    icon_ok: bool,
) -> (r: Result<(), AppError>)
    ensures
        r is Ok <==> name_ok && (visibility matches Some(v) ==> known_visibility(v@))
            && description_ok && icon_ok,
        r is Err ==> error::refused(r, ProblemCode::InvalidInput),
{
    if !name_ok {
        return Err(AppError::from_code(ProblemCode::InvalidInput));
    }
    if let Some(v) = visibility {
        if !is_visibility(v) {
            return Err(AppError::from_code(ProblemCode::InvalidInput));
        }
    }
    if !description_ok || !icon_ok {
        return Err(AppError::from_code(ProblemCode::InvalidInput));
    }
    Ok(())
}

/// The role that a request names, where it is one.
pub fn role_param<R>(role: Option<R>) -> (r: Result<R, AppError>)
    ensures
        match role {
            Some(x) => r == Ok::<R, AppError>(x),
            None => error::refused(r, ProblemCode::InvalidInput),
        },
{
    match role {
        Some(x) => Ok(x),
        None => Err(AppError::from_code(ProblemCode::InvalidInput)),
    }
}

/// A project, as the store keeps it.
#[derive(Debug)]
pub struct ProjectRow {
    pub id: Uuid,
    pub workspace_id: Uuid,
    pub key: String,
    pub name: String,
    pub description: Option<String>,
    pub icon: Option<String>,
    pub visibility: String,
    pub root_document_id: Option<Uuid>,
    pub status: String,
    pub created_by: Uuid,
    pub created_at: Timestamp,
    pub updated_at: Timestamp,
}

/// A project as it is answered.
#[derive(Debug)]
pub struct ProjectOutput {
    pub id: String,
    pub workspace_id: String,
    pub key: String,
    pub name: String,
    pub description: Option<String>,
    pub icon: Option<String>,
    pub visibility: String,
    pub root_document_id: Option<String>,
    pub status: String,
    pub created_by: String,
    pub created_at: Timestamp,
    pub updated_at: Timestamp,
}

impl Answer for ProjectRow {
    type Out = ProjectOutput;

    open spec fn answered(&self, out: &ProjectOutput) -> bool {
        &&& out.id@ == ids::uuid_text(self.id.0)
        &&& out.workspace_id@ == ids::uuid_text(self.workspace_id.0)
        &&& out.key@ == self.key@
        &&& out.name@ == self.name@
        &&& error::text_view(out.description) == error::text_view(self.description)
        &&& error::text_view(out.icon) == error::text_view(self.icon)
        &&& out.visibility@ == self.visibility@
        &&& error::text_view(out.root_document_id) == ids::opt_text(self.root_document_id)
        &&& out.status@ == self.status@
        &&& out.created_by@ == ids::uuid_text(self.created_by.0)
        &&& out.created_at == self.created_at
        &&& out.updated_at == self.updated_at
    }

    fn answer(&self) -> (r: ProjectOutput) {
        ProjectOutput {
            id: self.id.text(),
            workspace_id: self.workspace_id.text(),
            key: self.key.clone(),
            name: self.name.clone(),
            description: copy_text(&self.description),
            icon: copy_text(&self.icon),
            visibility: self.visibility.clone(),
            root_document_id: text_of(self.root_document_id),
            status: self.status.clone(),
            created_by: self.created_by.text(),
            created_at: self.created_at,
            updated_at: self.updated_at,
        }
    }
}

/// The answer about a project that the store found, created or changed.
pub fn project_reply(found: Result<Result<ProjectRow, ProjectDbError>, DbFailure>) -> (r: Result<
    ProjectOutput,
    AppError,
>)
    ensures
        match found {
            Err(_) => error::refused(r, ProblemCode::Internal),
            Ok(Err(err)) => r matches Err(e) && e@ == project_problem(err),
            Ok(Ok(row)) => r matches Ok(out) && row.answered(&out),
        },
{
    match project_result(found) {
        Err(e) => Err(e),
        Ok(row) => Ok(row.answer()),
    }
}

/// The answers about things of projects that the store listed.
pub fn project_list_reply<T: Answer>(
    found: Result<Result<Vec<T>, ProjectDbError>, DbFailure>,
) -> (r: Result<Vec<T::Out>, AppError>)
    ensures
        match found {
            Err(_) => error::refused(r, ProblemCode::Internal),
            Ok(Err(err)) => r matches Err(e) && e@ == project_problem(err),
            Ok(Ok(rows)) => r matches Ok(out) && answer::all_answered(rows@, out@),
        },
{
    match project_result(found) {
        Err(e) => Err(e),
        Ok(rows) => Ok(answer_all(rows.as_slice())),
    }
}

/// A project in a list, as the store keeps it.
#[derive(Debug)]
pub struct ProjectListItem {
    pub project: ProjectRow,
    pub task_count: i64,
    pub open_task_count: i64,
}

/// A project in a list as it is answered.
#[derive(Debug)]
pub struct ProjectListItemOutput {
    pub project: ProjectOutput,
    pub task_count: i64,
    pub open_task_count: i64,
}

impl Answer for ProjectListItem {
    type Out = ProjectListItemOutput;

    open spec fn answered(&self, out: &ProjectListItemOutput) -> bool {
        &&& self.project.answered(&out.project)
        &&& out.task_count == self.task_count
        &&& out.open_task_count == self.open_task_count
    }

    fn answer(&self) -> (r: ProjectListItemOutput) {
        ProjectListItemOutput {
            project: self.project.answer(),
            task_count: self.task_count,
            open_task_count: self.open_task_count,
        }
    }
}

/// A member of a project or a workspace, as the store keeps them.
#[derive(Debug)]
pub struct MemberRow {
    pub user_id: Uuid,
    pub email: String,
    pub given_name: String,
    pub family_name: Option<String>,
    pub role: String,
}

/// A member as they are answered.
#[derive(Debug)]
pub struct MemberResponse {
    pub user_id: String,
    pub email: String,
    pub given_name: String,
    pub family_name: Option<String>,
    pub role: String,
}

impl Answer for MemberRow {
    type Out = MemberResponse;

    open spec fn answered(&self, out: &MemberResponse) -> bool {
        &&& out.user_id@ == ids::uuid_text(self.user_id.0)
        &&& out.email@ == self.email@
        &&& out.given_name@ == self.given_name@
        &&& error::text_view(out.family_name) == error::text_view(self.family_name)
        &&& out.role@ == self.role@
    }

    fn answer(&self) -> (r: MemberResponse) {
        MemberResponse {
            user_id: self.user_id.text(),
            email: self.email.clone(),
            given_name: self.given_name.clone(),
            family_name: copy_text(&self.family_name),
            role: self.role.clone(),
        }
    }
}

/// A status of a workflow, as the store keeps it.
#[derive(Debug)]
pub struct StatusRow {
    pub id: Uuid,
    pub name: String,
    pub category: String,
    pub sort_key: String,
    pub wip_limit: Option<i32>,
}

/// A status of a workflow as it is answered.
#[derive(Debug)]
pub struct WorkflowStatusOutput {
    pub id: String,
    pub workflow_id: String,
    pub name: String,
    pub category: String,
    pub sort_key: String,
    pub wip_limit: Option<i32>,
}

/// The answer about a status of a workflow.
pub open spec fn answers_status(row: StatusRow, workflow_id: Uuid, out: WorkflowStatusOutput) -> bool {
    &&& out.id@ == ids::uuid_text(row.id.0)
    &&& out.workflow_id@ == ids::uuid_text(workflow_id.0)
    &&& out.name@ == row.name@
    &&& out.category@ == row.category@
    &&& out.sort_key@ == row.sort_key@
    &&& out.wip_limit == row.wip_limit
}

pub fn status_output(row: &StatusRow, workflow_id: Uuid) -> (r: WorkflowStatusOutput)
    ensures
        answers_status(*row, workflow_id, r),
{
    WorkflowStatusOutput {
        id: row.id.text(),
        workflow_id: workflow_id.text(),
        name: row.name.clone(),
        category: row.category.clone(),
        sort_key: row.sort_key.clone(),
        wip_limit: row.wip_limit,
    }
}

/// A workflow, as the store keeps it.
#[derive(Debug)]
pub struct WorkflowRow {
    pub id: Uuid,
    pub project_id: Uuid,
    pub statuses: Vec<StatusRow>,
}

/// A workflow as it is answered.
#[derive(Debug)]
pub struct WorkflowOutput {
    pub id: String,
    pub project_id: String,
    pub statuses: Vec<WorkflowStatusOutput>,
}

impl Answer for WorkflowRow {
    type Out = WorkflowOutput;

    open spec fn answered(&self, out: &WorkflowOutput) -> bool {
        &&& out.id@ == ids::uuid_text(self.id.0)
        &&& out.project_id@ == ids::uuid_text(self.project_id.0)
        &&& out.statuses@.len() == self.statuses@.len()
        &&& forall|i: int|
            0 <= i < self.statuses@.len() ==> answers_status(
                #[trigger] self.statuses@[i],
                self.id,
                out.statuses@[i],
            )
    }

    fn answer(&self) -> (r: WorkflowOutput) {
        let mut statuses: Vec<WorkflowStatusOutput> = Vec::new();
        let mut i: usize = 0;
        while i < self.statuses.len()
            invariant
                i <= self.statuses@.len(),
                statuses@.len() == i,
                forall|j: int|
                    0 <= j < i ==> answers_status(
                        #[trigger] self.statuses@[j],
                        self.id,
                        statuses@[j],
                    ),
            decreases self.statuses.len() - i,
        {
            statuses.push(status_output(&self.statuses[i], self.id));
            i = i + 1;
        }
        WorkflowOutput { id: self.id.text(), project_id: self.project_id.text(), statuses }
    }
}

/// Each value of a project is answered under the name that it is kept by.
pub proof fn law_project_is_answered_as_kept(row: ProjectRow, out: ProjectOutput)
    requires
        row.answered(&out),
    ensures
        ids::uuid_of(out.id@) == Some(row.id.0),
        ids::uuid_of(out.workspace_id@) == Some(row.workspace_id.0),
        out.key@ == row.key@,
        out.name@ == row.name@,
        error::text_view(out.description) == error::text_view(row.description),
        error::text_view(out.icon) == error::text_view(row.icon),
        out.visibility@ == row.visibility@,
        match (row.root_document_id, out.root_document_id) {
            (Some(id), Some(s)) => ids::uuid_of(s@) == Some(id.0),
            (None, None) => true,
            _ => false,
        },
        out.status@ == row.status@,
        ids::uuid_of(out.created_by@) == Some(row.created_by.0),
        out.created_at == row.created_at,
        out.updated_at == row.updated_at,
{
    ids::law_uuid_round_trip(row.id.0);
    ids::law_uuid_round_trip(row.workspace_id.0);
    if let Some(id) = row.root_document_id {
        ids::law_uuid_round_trip(id.0);
    }
    ids::law_uuid_round_trip(row.created_by.0);
}

/// Each value of a project list item is answered under the name that it is kept by.
pub proof fn law_project_list_item_is_answered_as_kept(
    row: ProjectListItem,
    out: ProjectListItemOutput,
)
    requires
        row.answered(&out),
    ensures
        row.project.answered(&out.project),
        out.task_count == row.task_count,
        out.open_task_count == row.open_task_count,
{
}

/// Each value of a member is answered under the name that it is kept by.
pub proof fn law_member_is_answered_as_kept(row: MemberRow, out: MemberResponse)
    requires
        row.answered(&out),
    ensures
        ids::uuid_of(out.user_id@) == Some(row.user_id.0),
        out.email@ == row.email@,
        out.given_name@ == row.given_name@,
        error::text_view(out.family_name) == error::text_view(row.family_name),
        out.role@ == row.role@,
{
    ids::law_uuid_round_trip(row.user_id.0);
}

/// Each value of a workflow is answered under the name that it is kept by.
pub proof fn law_workflow_is_answered_as_kept(row: WorkflowRow, out: WorkflowOutput)
    requires
        row.answered(&out),
    ensures
        ids::uuid_of(out.id@) == Some(row.id.0),
        ids::uuid_of(out.project_id@) == Some(row.project_id.0),
        out.statuses@.len() == row.statuses@.len(),
        forall|i: int|
            0 <= i < row.statuses@.len() ==> answers_status(
                #[trigger] row.statuses@[i],
                row.id,
                out.statuses@[i],
            ),
{
    ids::law_uuid_round_trip(row.id.0);
    ids::law_uuid_round_trip(row.project_id.0);
}

/// Each value of a status is answered under the name that it is kept by.
pub proof fn law_status_is_answered_as_kept(
    row: StatusRow,
    workflow_id: Uuid,
    out: WorkflowStatusOutput,
)
    requires
        answers_status(row, workflow_id, out),
    ensures
        ids::uuid_of(out.id@) == Some(row.id.0),
        ids::uuid_of(out.workflow_id@) == Some(workflow_id.0),
        out.name@ == row.name@,
        out.category@ == row.category@,
        out.sort_key@ == row.sort_key@,
        out.wip_limit == row.wip_limit,
{
    ids::law_uuid_round_trip(row.id.0);
    ids::law_uuid_round_trip(workflow_id.0);
}

/// What one may not see of a project is answered as what is not there, and a project that is
/// archived as such.
pub proof fn law_hidden_project_is_answered_as_missing(err: ProjectDbError)
    ensures
        project_problem(err) == error::problem(ProblemCode::NotFound) <==> err is NotFound || err
            is Forbidden,
        project_problem(err) == error::problem(ProblemCode::ProjectArchived) <==> err is Archived,
        project_problem(err).code == ProblemCode::Conflict || project_problem(err).code
            == ProblemCode::NotFound || project_problem(err).code == ProblemCode::InvalidInput
            || project_problem(err).code == ProblemCode::ProjectArchived,
{
}

} // verus!
