//! The views of a project's tasks that a user saved.

use vstd::prelude::*;
use crate::answer::Answer;
use crate::error;
use crate::error::{ApiError, ApiErrorView, ProblemCode};
use crate::ids;
use crate::ids::Uuid;
use crate::json::{Json, copy_json};
use crate::routes::collections::{invalid, version_conflict};
use crate::store::ApiRefusal;

verus! {

/// Why the store refused a request about a view.
#[derive(Clone, Copy, Debug, PartialEq, Eq, Structural)]
pub enum ViewDbError {
    NotFound,
    InvalidInput,
    VersionConflict,
}

/// The problem that a refusal about a view is told as.
pub open spec fn view_problem(err: ViewDbError) -> ApiErrorView {
    match err {
        ViewDbError::NotFound => error::api_problem(ProblemCode::NotFound),
        ViewDbError::InvalidInput => error::api_problem(ProblemCode::InvalidInput),
        ViewDbError::VersionConflict => error::coded_problem(
            409,
            "document_version_mismatch"@,
            "document version mismatch"@,
        ),
    }
}

pub fn map_view_error(err: ViewDbError) -> (r: ApiError)
    ensures
        r@ == view_problem(err),
{
    match err {
        ViewDbError::NotFound => ApiError::app(ProblemCode::NotFound),
        ViewDbError::InvalidInput => invalid(),
        ViewDbError::VersionConflict => version_conflict(),
    }
}

impl ApiRefusal for ViewDbError {
    open spec fn problem(&self) -> ApiErrorView {
        view_problem(*self)
    }

    fn refusal(&self) -> (r: ApiError) {
        map_view_error(*self)
    }
}

/// A view, as the store keeps it.
#[derive(Debug)]
pub struct ProjectViewRow {
    pub id: Uuid,
    pub project_id: Uuid,
    pub name: String,
    pub kind: String,
    pub config: Json,
}

/// A view as it is answered.
#[derive(Debug)]
pub struct ProjectViewOutput {
    pub id: String,
    pub project_id: String,
    pub name: String,
    pub kind: String,
    pub config: Json,
}

impl Answer for ProjectViewRow {
    type Out = ProjectViewOutput;

    open spec fn answered(&self, out: &ProjectViewOutput) -> bool {
        &&& out.id@ == ids::uuid_text(self.id.0)
        &&& out.project_id@ == ids::uuid_text(self.project_id.0)
        &&& out.name@ == self.name@
        &&& out.kind@ == self.kind@
        &&& out.config@ == self.config@
    }

    fn answer(&self) -> (r: ProjectViewOutput) {
        ProjectViewOutput {
            id: self.id.text(),
            project_id: self.project_id.text(),
            name: self.name.clone(),
            kind: self.kind.clone(),
            config: copy_json(&self.config),
        }
    }
}

/// Each value of a project view is answered under the name that it is kept by.
pub proof fn law_project_view_is_answered_as_kept(row: ProjectViewRow, out: ProjectViewOutput)
    requires
        row.answered(&out),
    ensures
        ids::uuid_of(out.id@) == Some(row.id.0),
        ids::uuid_of(out.project_id@) == Some(row.project_id.0),
        out.name@ == row.name@,
        out.kind@ == row.kind@,
        out.config@ == row.config@,
{
    ids::law_uuid_round_trip(row.id.0);
    ids::law_uuid_round_trip(row.project_id.0);
}

} // verus!
