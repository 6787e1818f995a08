//! What a user sees first: their tasks, what they worked on last, and their workspaces.

use vstd::prelude::*;
use crate::answer;
use crate::answer::{Answer, answer_all};
use crate::error;
use crate::error::{AppError, DbFailure, ProblemCode};
use crate::ids;
use crate::ids::{Uuid, text_of};
use crate::routes::account::SessionGone;
use crate::routes::projects::{MemberResponse, MemberRow};
use crate::routes::task_ops::{WorkspaceStatusOutput, WorkspaceStatusRow};
use crate::routes::tasks::{LabelOutput, LabelRow, TaskListItem, TaskListItemOutput};
use crate::time::Timestamp;

verus! {

/// Something that was worked on, as the store keeps it.
#[derive(Debug)]
pub struct RecentItem {
    pub kind: String,
    pub id: Uuid,
    pub title: String,
    pub project_id: Option<Uuid>,
    pub number: Option<i64>,
    pub updated_at: Timestamp,
    pub workspace_id: Uuid,
}

/// Something that was worked on as it is answered.
#[derive(Debug)]
pub struct DashboardRecentItemOutput {
    pub kind: String,
    pub id: String,
    pub title: String,
    pub project_id: Option<String>,
    pub number: Option<i64>,
    pub updated_at: Timestamp,
    pub workspace_id: String,
}

impl Answer for RecentItem {
    type Out = DashboardRecentItemOutput;

    open spec fn answered(&self, out: &DashboardRecentItemOutput) -> bool {
        &&& out.kind@ == self.kind@
        &&& out.id@ == ids::uuid_text(self.id.0)
        &&& out.title@ == self.title@
        &&& error::text_view(out.project_id) == ids::opt_text(self.project_id)
        &&& out.number == self.number
        &&& out.updated_at == self.updated_at
        &&& out.workspace_id@ == ids::uuid_text(self.workspace_id.0)
    }

    fn answer(&self) -> (r: DashboardRecentItemOutput) {
        DashboardRecentItemOutput {
            kind: self.kind.clone(),
            id: self.id.text(),
            title: self.title.clone(),
            project_id: text_of(self.project_id),
            number: self.number,
            updated_at: self.updated_at,
            workspace_id: self.workspace_id.text(),
        }
    }
}

/// A project of the tasks, as the store keeps it.
#[derive(Debug)]
pub struct DashboardProject {
    pub id: Uuid,
    pub workspace_id: Uuid,
    pub key: String,
    pub name: String,
}

/// A project of the tasks as it is answered.
#[derive(Debug)]
pub struct DashboardProjectOutput {
    pub id: String,
    pub workspace_id: String,
    pub key: String,
    pub name: String,
}

impl Answer for DashboardProject {
    type Out = DashboardProjectOutput;

    open spec fn answered(&self, out: &DashboardProjectOutput) -> bool {
        &&& out.id@ == ids::uuid_text(self.id.0)
        &&& out.workspace_id@ == ids::uuid_text(self.workspace_id.0)
        &&& out.key@ == self.key@
        &&& out.name@ == self.name@
    }

    fn answer(&self) -> (r: DashboardProjectOutput) {
        DashboardProjectOutput {
            id: self.id.text(),
            workspace_id: self.workspace_id.text(),
            key: self.key.clone(),
            name: self.name.clone(),
        }
    }
}

/// A workspace of the user, as the store keeps it.
#[derive(Debug)]
pub struct DashboardWorkspace {
    pub id: Uuid,
    pub name: String,
    pub slug: String,
    pub role: String,
    pub kind: String,
    pub document_count: i64,
    pub assigned_count: i64,
    pub unread_count: i64,
}

/// A workspace of the user as it is answered.
#[derive(Debug)]
pub struct DashboardWorkspaceOutput {
    pub id: String,
    pub name: String,
    pub slug: String,
    pub role: String,
    pub kind: String,
    pub document_count: i64,
    pub assigned_count: i64,
    pub unread_count: i64,
}

impl Answer for DashboardWorkspace {
    type Out = DashboardWorkspaceOutput;

    open spec fn answered(&self, out: &DashboardWorkspaceOutput) -> bool {
        &&& out.id@ == ids::uuid_text(self.id.0)
        &&& out.name@ == self.name@
        &&& out.slug@ == self.slug@
        &&& out.role@ == self.role@
        &&& out.kind@ == self.kind@
        &&& out.document_count == self.document_count
        &&& out.assigned_count == self.assigned_count
        &&& out.unread_count == self.unread_count
    }

    fn answer(&self) -> (r: DashboardWorkspaceOutput) {
        DashboardWorkspaceOutput {
            id: self.id.text(),
            name: self.name.clone(),
            slug: self.slug.clone(),
            role: self.role.clone(),
            kind: self.kind.clone(),
            document_count: self.document_count,
            assigned_count: self.assigned_count,
            unread_count: self.unread_count,
        }
    }
}

/// What a user sees first, as the store puts it together.
#[derive(Debug)]
pub struct Dashboard {
    pub assigned: Vec<TaskListItem>,
    pub recent: Vec<RecentItem>,
    pub labels: Vec<LabelRow>,
    pub statuses: Vec<WorkspaceStatusRow>,
    pub projects: Vec<DashboardProject>,
    pub members: Vec<MemberRow>,
    pub workspaces: Vec<DashboardWorkspace>,
    pub unread_count: i64,
}

/// What a user sees first as it is answered.
#[derive(Debug)]
pub struct MeDashboardResponse {
    pub assigned: Vec<TaskListItemOutput>,
    pub recent: Vec<DashboardRecentItemOutput>,
    pub labels: Vec<LabelOutput>,
    pub statuses: Vec<WorkspaceStatusOutput>,
    pub projects: Vec<DashboardProjectOutput>,
    pub members: Vec<MemberResponse>,
    pub workspaces: Vec<DashboardWorkspaceOutput>,
    pub unread_count: i64,
}

impl Answer for Dashboard {
    type Out = MeDashboardResponse;

    open spec fn answered(&self, out: &MeDashboardResponse) -> bool {
        &&& answer::all_answered(self.assigned@, out.assigned@)
        &&& answer::all_answered(self.recent@, out.recent@)
        &&& answer::all_answered(self.labels@, out.labels@)
        &&& answer::all_answered(self.statuses@, out.statuses@)
        &&& answer::all_answered(self.projects@, out.projects@)
        &&& answer::all_answered(self.members@, out.members@)
        &&& answer::all_answered(self.workspaces@, out.workspaces@)
        &&& out.unread_count == self.unread_count
    }

    fn answer(&self) -> (r: MeDashboardResponse) {
        MeDashboardResponse {
            assigned: answer_all(self.assigned.as_slice()),
            recent: answer_all(self.recent.as_slice()),
            labels: answer_all(self.labels.as_slice()),
            statuses: answer_all(self.statuses.as_slice()),
            projects: answer_all(self.projects.as_slice()),
            members: answer_all(self.members.as_slice()),
            workspaces: answer_all(self.workspaces.as_slice()),
            unread_count: self.unread_count,
        }
    }
}

/// The answer with what a user sees first.
pub fn me_dashboard(board: Result<Result<Dashboard, SessionGone>, DbFailure>) -> (r: Result<
    MeDashboardResponse,
    AppError,
>)
    ensures
        match board {
            Err(_) => error::refused(r, ProblemCode::Internal),
            Ok(Err(_)) => error::refused(r, ProblemCode::AuthenticationRequired),
            Ok(Ok(b)) => r matches Ok(out) && b.answered(&out),
        },
{
    match board {
        Err(_) => Err(AppError::internal()),
        Ok(Err(_)) => Err(AppError::from_code(ProblemCode::AuthenticationRequired)),
        Ok(Ok(b)) => Ok(b.answer()),
    }
}

/// Each value of a recent item is answered under the name that it is kept by.
pub proof fn law_recent_item_is_answered_as_kept(row: RecentItem, out: DashboardRecentItemOutput)
    requires
        row.answered(&out),
    ensures
        out.kind@ == row.kind@,
        ids::uuid_of(out.id@) == Some(row.id.0),
        out.title@ == row.title@,
        match (row.project_id, out.project_id) {
            (Some(id), Some(s)) => ids::uuid_of(s@) == Some(id.0),
            (None, None) => true,
            _ => false,
        },
        out.number == row.number,
        out.updated_at == row.updated_at,
        ids::uuid_of(out.workspace_id@) == Some(row.workspace_id.0),
{
    ids::law_uuid_round_trip(row.id.0);
    if let Some(id) = row.project_id {
        ids::law_uuid_round_trip(id.0);
    }
    ids::law_uuid_round_trip(row.workspace_id.0);
}

/// Each value of a dashboard project is answered under the name that it is kept by.
pub proof fn law_dashboard_project_is_answered_as_kept(
    row: DashboardProject,
    out: DashboardProjectOutput,
)
    requires
        row.answered(&out),
    ensures
        ids::uuid_of(out.id@) == Some(row.id.0),
        ids::uuid_of(out.workspace_id@) == Some(row.workspace_id.0),
        out.key@ == row.key@,
        out.name@ == row.name@,
{
    ids::law_uuid_round_trip(row.id.0);
    ids::law_uuid_round_trip(row.workspace_id.0);
}

/// Each value of a dashboard workspace is answered under the name that it is kept by.
pub proof fn law_dashboard_workspace_is_answered_as_kept(
    row: DashboardWorkspace,
    out: DashboardWorkspaceOutput,
)
    requires
        row.answered(&out),
    ensures
        ids::uuid_of(out.id@) == Some(row.id.0),
        out.name@ == row.name@,
        out.slug@ == row.slug@,
        out.role@ == row.role@,
        out.kind@ == row.kind@,
        out.document_count == row.document_count,
        out.assigned_count == row.assigned_count,
        out.unread_count == row.unread_count,
{
    ids::law_uuid_round_trip(row.id.0);
}

/// Each value of a dashboard is answered under the name that it is kept by.
pub proof fn law_dashboard_is_answered_as_kept(row: Dashboard, out: MeDashboardResponse)
    requires
        row.answered(&out),
    ensures
        answer::all_answered(row.assigned@, out.assigned@),
        answer::all_answered(row.recent@, out.recent@),
        answer::all_answered(row.labels@, out.labels@),
        answer::all_answered(row.statuses@, out.statuses@),
        answer::all_answered(row.projects@, out.projects@),
        answer::all_answered(row.members@, out.members@),
        answer::all_answered(row.workspaces@, out.workspaces@),
        out.unread_count == row.unread_count,
{
}

} // verus!
