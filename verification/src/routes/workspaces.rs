//! Workspaces and their members.

use vstd::prelude::*;
use vstd::string::*;
use crate::answer::{Answer, answer_all};
use crate::answer;
use crate::error;
use crate::error::{AppError, DbFailure, ErrorView, ProblemCode};
use crate::ids;
use crate::ids::Uuid;
use crate::store::Refusal;
use crate::text;
use crate::text::trim;

verus! {

/// Why the store refused a request about a workspace.
#[derive(Clone, Copy, Debug, PartialEq, Eq, Structural)]
pub enum WorkspaceDbError {
    NotFound,
    Forbidden,
    PersonalImmutable,
    LastOwner,
    SelfChange,
    RoleCap,
    SlugTaken,
    LastProjectLead,
    SeatLimit,
    GuestLimit,
    InvalidInput,
}

/// The problem that a refusal about a workspace is told as. Only where `permitted_to_know` is one
/// without the permission told so; else there is nothing.
pub open spec fn workspace_code(err: WorkspaceDbError, permitted_to_know: bool) -> ProblemCode {
    match err {
        WorkspaceDbError::NotFound => ProblemCode::NotFound,
        WorkspaceDbError::Forbidden => if permitted_to_know {
            ProblemCode::InsufficientPermissions
        } else {
            ProblemCode::NotFound
        },
        WorkspaceDbError::PersonalImmutable => ProblemCode::PersonalWorkspaceImmutable,
        WorkspaceDbError::LastOwner => ProblemCode::WorkspaceLastOwnerRequired,
        WorkspaceDbError::SelfChange => ProblemCode::WorkspaceMemberSelfChangeForbidden,
        WorkspaceDbError::RoleCap => ProblemCode::CannotManageRoleAboveOwn,
        WorkspaceDbError::SlugTaken => ProblemCode::SlugTaken,
        WorkspaceDbError::LastProjectLead => ProblemCode::Conflict,
        WorkspaceDbError::SeatLimit => ProblemCode::LimitSeats,
        WorkspaceDbError::GuestLimit => ProblemCode::LimitGuests,
        WorkspaceDbError::InvalidInput => ProblemCode::InvalidInput,
    }
}

pub fn map_workspace_error(err: WorkspaceDbError, create_route: bool) -> (r: AppError)
    ensures
        r@ == error::problem(workspace_code(err, create_route)),
{
    match err {
        WorkspaceDbError::NotFound => AppError::from_code(ProblemCode::NotFound),
        WorkspaceDbError::Forbidden => if create_route {
            AppError::from_code(ProblemCode::InsufficientPermissions)
        } else {
            AppError::from_code(ProblemCode::NotFound)
        },
        WorkspaceDbError::PersonalImmutable => AppError::from_code(
            ProblemCode::PersonalWorkspaceImmutable,
        ),
        WorkspaceDbError::LastOwner => AppError::from_code(
            ProblemCode::WorkspaceLastOwnerRequired,
        ),
        WorkspaceDbError::SelfChange => AppError::from_code(
            ProblemCode::WorkspaceMemberSelfChangeForbidden,
        ),
        WorkspaceDbError::RoleCap => AppError::from_code(ProblemCode::CannotManageRoleAboveOwn),
        WorkspaceDbError::SlugTaken => AppError::from_code(ProblemCode::SlugTaken),
        WorkspaceDbError::LastProjectLead => AppError::from_code(ProblemCode::Conflict),
        WorkspaceDbError::SeatLimit => AppError::from_code(ProblemCode::LimitSeats),
        WorkspaceDbError::GuestLimit => AppError::from_code(ProblemCode::LimitGuests),
        WorkspaceDbError::InvalidInput => AppError::from_code(ProblemCode::InvalidInput),
    }
}

/// Most routes tell one without the permission that there is nothing.
impl Refusal for WorkspaceDbError {
    open spec fn problem(&self) -> ErrorView {
        error::problem(workspace_code(*self, false))
    }

    fn refusal(&self) -> (r: AppError) {
        map_workspace_error(*self, false)
    }
}

/// A workspace in the list of a user, as the store keeps it.
#[derive(Debug)]
pub struct WorkspaceListRow {
    pub id: Uuid,
    pub name: String,
    pub slug: String,
    pub role: String,
    pub kind: String,
    pub document_count: i64,
    pub assigned_count: i64,
}

/// A workspace in the list of a user as it is answered.
#[derive(Debug)]
pub struct WorkspaceListItemResponse {
    pub id: String,
    pub name: String,
    pub slug: String,
    pub role: String,
    pub kind: String,
    pub document_count: i64,
    pub assigned_count: i64,
}

impl Answer for WorkspaceListRow {
    type Out = WorkspaceListItemResponse;

    open spec fn answered(&self, out: &WorkspaceListItemResponse) -> bool {
        &&& out.id@ == ids::uuid_text(self.id.0)
        &&& out.name@ == self.name@
        &&& out.slug@ == self.slug@
        &&& out.role@ == self.role@
        &&& out.kind@ == self.kind@
        &&& out.document_count == self.document_count
        &&& out.assigned_count == self.assigned_count
    }

    fn answer(&self) -> (r: WorkspaceListItemResponse) {
        WorkspaceListItemResponse {
            id: self.id.text(),
            name: self.name.clone(),
            slug: self.slug.clone(),
            role: self.role.clone(),
            kind: self.kind.clone(),
            document_count: self.document_count,
            assigned_count: self.assigned_count,
        }
    }
}

/// The workspaces of a user.
pub fn my_workspaces(listed: Result<Vec<WorkspaceListRow>, DbFailure>) -> (r: Result<
    Vec<WorkspaceListItemResponse>,
    AppError,
>)
    ensures
        match listed {
            Err(_) => error::refused(r, ProblemCode::Internal),
            Ok(rows) => r matches Ok(out) && answer::all_answered(rows@, out@),
        },
{
    match listed {
        Err(_) => Err(AppError::internal()),
        Ok(rows) => Ok(answer_all(rows.as_slice())),
    }
}

/// A workspace, as the store keeps it.
#[derive(Debug)]
pub struct WorkspaceMeta {
    pub id: Uuid,
    pub name: String,
    pub slug: String,
}

/// A workspace as it is answered.
#[derive(Debug)]
pub struct WorkspaceMetaResponse {
    pub id: String,
    pub name: String,
    pub slug: String,
}

impl Answer for WorkspaceMeta {
    type Out = WorkspaceMetaResponse;

    open spec fn answered(&self, out: &WorkspaceMetaResponse) -> bool {
        &&& out.id@ == ids::uuid_text(self.id.0)
        &&& out.name@ == self.name@
        &&& out.slug@ == self.slug@
    }

    fn answer(&self) -> (r: WorkspaceMetaResponse) {
        WorkspaceMetaResponse {
            id: self.id.text(),
            name: self.name.clone(),
            slug: self.slug.clone(),
        }
    }
}

/// The new name of a workspace, which has to be given. `check` is what the rules say of it without
/// white space around it.
pub fn patch_input(name: Option<String>, check: Result<(), AppError>) -> (r: Result<
    String,
    AppError,
>)
    ensures
        match (name, check) {
            (None, _) => error::refused(r, ProblemCode::InvalidInput),
            (Some(_), Err(e)) => r matches Err(x) && x@ == e@,
            (Some(n), Ok(_)) => r matches Ok(s) && s@ == text::trimmed(n@),
        },
{
    match name {
        None => Err(AppError::from_code(ProblemCode::InvalidInput)),
        Some(n) => match check {
            Err(e) => Err(e),
            Ok(_) => Ok(trim(n.as_str()).to_owned()),
        },
    }
}

/// The name of a workspace to be made, and its name in URLs. `check` is what the rules say of the
/// name without white space around it, `slug` the other in normal form, or why it is none.
pub fn create_input(name: &str, check: Result<(), AppError>, slug: Result<String, AppError>) -> (r:
    Result<(String, String), AppError>)
    ensures
        match (check, slug) {
            (Err(e), _) => r matches Err(x) && x@ == e@,
            (Ok(_), Err(e)) => r matches Err(x) && x@ == e@,
            (Ok(_), Ok(s)) => r matches Ok(input) && input.0@ == text::trimmed(name@) && input.1
                == s,
        },
{
    if let Err(e) = check {
        return Err(e);
    }
    match slug {
        Err(e) => Err(e),
        Ok(s) => Ok((trim(name).to_owned(), s)),
    }
}

/// The answer to the making or the removal of a workspace: one without the permission is told so.
pub fn open_reply<T: Answer>(done: Result<Result<T, WorkspaceDbError>, DbFailure>) -> (r: Result<
    T::Out,
    AppError,
>)
    ensures
        match done {
            Err(_) => error::refused(r, ProblemCode::Internal),
            Ok(Err(err)) => error::refused(r, workspace_code(err, true)),
            Ok(Ok(t)) => r matches Ok(out) && t.answered(&out),
        },
{
    match done {
        Err(_) => Err(AppError::internal()),
        Ok(Err(err)) => Err(map_workspace_error(err, true)),
        Ok(Ok(t)) => Ok(t.answer()),
    }
}

/// Each value of a workspace list is answered under the name that it is kept by.
pub proof fn law_workspace_list_is_answered_as_kept(
    row: WorkspaceListRow,
    out: WorkspaceListItemResponse,
)
    requires
        row.answered(&out),
    ensures
        ids::uuid_of(out.id@) == Some(row.id.0),
        out.name@ == row.name@,
        out.slug@ == row.slug@,
        out.role@ == row.role@,
        out.kind@ == row.kind@,
        out.document_count == row.document_count,
        out.assigned_count == row.assigned_count,
{
    ids::law_uuid_round_trip(row.id.0);
}

/// Each value of a workspace meta is answered under the name that it is kept by.
pub proof fn law_workspace_meta_is_answered_as_kept(row: WorkspaceMeta, out: WorkspaceMetaResponse)
    requires
        row.answered(&out),
    ensures
        ids::uuid_of(out.id@) == Some(row.id.0),
        out.name@ == row.name@,
        out.slug@ == row.slug@,
{
    ids::law_uuid_round_trip(row.id.0);
}

/// A workspace is made and changed with the name that was given, trimmed, and made under the
/// address that was settled on.
pub proof fn law_workspace_is_named_as_asked(
    name: String,
    slug: String,
    r: Result<String, AppError>,
    s: Result<(String, String), AppError>,
    asked: &str,
)
    requires
        call_ensures(patch_input, (Some(name), Ok(())), r),
        call_ensures(create_input, (asked, Ok(()), Ok(slug)), s),
    ensures
        r is Ok && r->Ok_0@ == text::trimmed(name@),
        s is Ok && s->Ok_0.0@ == text::trimmed(asked@) && s->Ok_0.1 == slug,
{
}

} // verus!
