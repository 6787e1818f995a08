//! The groups of a workspace, their members, and what they are granted.

use vstd::prelude::*;
use crate::answer::Answer;
use crate::error;
use crate::error::{AppError, ErrorView, ProblemCode};
use crate::ids;
use crate::ids::Uuid;
use crate::store::Refusal;
use crate::time::Timestamp;

verus! {

/// Why the store refused a request about groups.
#[derive(Clone, Copy, Debug, PartialEq, Eq, Structural)]
pub enum GroupDbError {
    NotFound,
    Forbidden,
    Conflict,
    LastLead,
    InvalidInput,
}

/// The problem that a refusal about groups is told as.
pub open spec fn group_code(err: GroupDbError) -> ProblemCode {
    match err {
        GroupDbError::NotFound | GroupDbError::Forbidden => ProblemCode::NotFound,
        GroupDbError::Conflict | GroupDbError::LastLead => ProblemCode::Conflict,
        GroupDbError::InvalidInput => ProblemCode::InvalidInput,
    }
}

pub fn map_group_error(err: GroupDbError) -> (r: AppError)
    ensures
        r@ == error::problem(group_code(err)),
{
    match err {
        GroupDbError::NotFound | GroupDbError::Forbidden => AppError::from_code(
            ProblemCode::NotFound,
        ),
        GroupDbError::Conflict | GroupDbError::LastLead => AppError::from_code(
            ProblemCode::Conflict,
        ),
        GroupDbError::InvalidInput => AppError::from_code(ProblemCode::InvalidInput),
    }
}

impl Refusal for GroupDbError {
    open spec fn problem(&self) -> ErrorView {
        error::problem(group_code(*self))
    }

    fn refusal(&self) -> (r: AppError) {
        map_group_error(*self)
    }
}

/// A group, as the store keeps it.
#[derive(Debug)]
pub struct GroupRow {
    pub id: Uuid,
    pub workspace_id: Uuid,
    pub name: String,
    pub created_at: Timestamp,
    pub updated_at: Timestamp,
}

/// A group as it is answered.
#[derive(Debug)]
pub struct GroupOutput {
    pub id: String,
    pub workspace_id: String,
    pub name: String,
    pub created_at: Timestamp,
    pub updated_at: Timestamp,
}

impl Answer for GroupRow {
    type Out = GroupOutput;

    open spec fn answered(&self, out: &GroupOutput) -> bool {
        &&& out.id@ == ids::uuid_text(self.id.0)
        &&& out.workspace_id@ == ids::uuid_text(self.workspace_id.0)
        &&& out.name@ == self.name@
        &&& out.created_at == self.created_at
        &&& out.updated_at == self.updated_at
    }

    fn answer(&self) -> (r: GroupOutput) {
        GroupOutput {
            id: self.id.text(),
            workspace_id: self.workspace_id.text(),
            name: self.name.clone(),
            created_at: self.created_at,
            updated_at: self.updated_at,
        }
    }
}

/// A member of a group, as the store keeps them.
#[derive(Debug)]
pub struct GroupMember {
    pub user_id: Uuid,
}

/// A member of a group as they are answered.
#[derive(Debug)]
pub struct GroupMemberOutput {
    pub user_id: String,
}

impl Answer for GroupMember {
    type Out = GroupMemberOutput;

    open spec fn answered(&self, out: &GroupMemberOutput) -> bool {
        out.user_id@ == ids::uuid_text(self.user_id.0)
    }

    fn answer(&self) -> (r: GroupMemberOutput) {
        GroupMemberOutput { user_id: self.user_id.text() }
    }
}

/// The role of a group in a project or a document, as the store keeps it.
#[derive(Debug)]
pub struct GroupGrant {
    pub group_id: Uuid,
    pub role: String,
}

/// The role of a group in a project or a document as it is answered.
#[derive(Debug)]
pub struct ProjectGroupGrantOutput {
    pub group_id: String,
    pub role: String,
}

impl Answer for GroupGrant {
    type Out = ProjectGroupGrantOutput;

    open spec fn answered(&self, out: &ProjectGroupGrantOutput) -> bool {
        out.group_id@ == ids::uuid_text(self.group_id.0) && out.role@ == self.role@
    }

    fn answer(&self) -> (r: ProjectGroupGrantOutput) {
        ProjectGroupGrantOutput { group_id: self.group_id.text(), role: self.role.clone() }
    }
}

/// Each value of a group is answered under the name that it is kept by.
pub proof fn law_group_is_answered_as_kept(row: GroupRow, out: GroupOutput)
    requires
        row.answered(&out),
    ensures
        ids::uuid_of(out.id@) == Some(row.id.0),
        ids::uuid_of(out.workspace_id@) == Some(row.workspace_id.0),
        out.name@ == row.name@,
        out.created_at == row.created_at,
        out.updated_at == row.updated_at,
{
    ids::law_uuid_round_trip(row.id.0);
    ids::law_uuid_round_trip(row.workspace_id.0);
}

} // verus!
