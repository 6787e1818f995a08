//! Documents of a workspace's wiki and of projects: their place in the tree, their names, the
//! trash, and renderings in other formats.

use vstd::prelude::*;
use vstd::string::*;
use crate::authz::RequestAuth;
use crate::error;
use crate::error::{ApiError, AppError, DbFailure, Params, ProblemCode};
use crate::header;
use crate::header::{Header, can_send, put};
use crate::ids;
use crate::ids::{Uuid, text_of};
use crate::json::Json;
use crate::policy::Route;
use crate::rate_limit;
use crate::rate_limit::{RateLimiter, charge};
use crate::routes::account::OkResponse;
use crate::text;
use crate::text::{decimal_string, join2, join3, same, trim};
use crate::time::Timestamp;

verus! {

/// Renderings that one user may ask for within a minute.
pub const DOC_EXPORT_LIMIT: u32 = 10;

pub const DOC_EXPORT_WINDOW: u64 = 60_000_000_000;

/// Why the store refused something about a document.
#[derive(Clone, Copy, Debug, PartialEq, Eq, Structural)]
pub enum DocumentDbError {
    NotFound,
    Forbidden,
    AffiliationMismatch,
    DepthLimit,
    Cycle,
    TrashedParent,
    RootDocumentTrash,
    RootDocumentMove,
    InvalidSortKey,
}

/// The problem that a refusal of the store ends in; `max_depth` is how deep the tree may be.
pub open spec fn document_problem(err: DocumentDbError, max_depth: u64) -> error::ApiErrorView {
    match err {
        DocumentDbError::NotFound => error::api_problem(ProblemCode::NotFound),
        DocumentDbError::Forbidden => error::api_problem(ProblemCode::NotFound),
        DocumentDbError::AffiliationMismatch => error::coded_problem(
            400,
            "document_affiliation_mismatch"@,
            "document affiliation mismatch"@,
        ),
        DocumentDbError::DepthLimit => error::ApiErrorView::Coded {
            status: 400,
            code: "tree_depth_limit"@,
            title: "tree depth would exceed limit ("@ + text::decimal(max_depth as nat) + ")"@,
            params: Some(error::ParamsView::Limit(max_depth)),
        },
        DocumentDbError::Cycle => error::coded_problem(
            400,
            "document_cycle"@,
            "move would create a cycle (new parent is the document itself or its descendant)"@,
        ),
        DocumentDbError::TrashedParent => error::coded_problem(
            409,
            "restore_rejected"@,
            "restore rejected"@,
        ),
        DocumentDbError::RootDocumentTrash => error::coded_problem(
            400,
            "root_document_trash"@,
            "cannot trash a project's root document (delete the project instead)"@,
        ),
        DocumentDbError::RootDocumentMove => error::coded_problem(
            400,
            "root_document_move"@,
            "cannot move a project's root document (not supported in v1)"@,
        ),
        DocumentDbError::InvalidSortKey => error::api_problem(ProblemCode::Internal),
    }
}

pub fn map_document_error(err: DocumentDbError, max_depth: u64) -> (r: ApiError)
    ensures
        r@ == document_problem(err, max_depth),
{
    match err {
        DocumentDbError::NotFound => ApiError::app(ProblemCode::NotFound),
        DocumentDbError::Forbidden => ApiError::app(ProblemCode::NotFound),
        DocumentDbError::AffiliationMismatch => ApiError::coded(
            400,
            "document_affiliation_mismatch",
            "document affiliation mismatch",
        ),
        DocumentDbError::DepthLimit => {
            let n = decimal_string(max_depth);
            let title = join3("tree depth would exceed limit (", n.as_str(), ")");
            ApiError::Coded {
                status: 400,
                code: "tree_depth_limit".to_owned(),
                title,
                params: Some(Params::Limit(max_depth)),
            }
        },
        DocumentDbError::Cycle => ApiError::coded(
            400,
            "document_cycle",
            "move would create a cycle (new parent is the document itself or its descendant)",
        ),
        DocumentDbError::TrashedParent => ApiError::coded(
            409,
            "restore_rejected",
            "restore rejected",
        ),
        DocumentDbError::RootDocumentTrash => ApiError::coded(
            400,
            "root_document_trash",
            "cannot trash a project's root document (delete the project instead)",
        ),
        DocumentDbError::RootDocumentMove => ApiError::coded(
            400,
            "root_document_move",
            "cannot move a project's root document (not supported in v1)",
        ),
        DocumentDbError::InvalidSortKey => ApiError::app(ProblemCode::Internal),
    }
}

/// What the store made of a request about a document.
pub fn db_result<T>(found: Result<Result<T, DocumentDbError>, DbFailure>, max_depth: u64) -> (r:
    Result<T, ApiError>)
    ensures
        match found {
            Err(_) => error::api_refused(r, ProblemCode::Internal),
            Ok(Err(err)) => r matches Err(e) && e@ == document_problem(err, max_depth),
            Ok(Ok(t)) => r == Ok::<T, ApiError>(t),
        },
{
    match found {
        Err(_) => Err(ApiError::app(ProblemCode::Internal)),
        Ok(Err(err)) => Err(map_document_error(err, max_depth)),
        Ok(Ok(t)) => Ok(t),
    }
}

/// A member that has to be there, but may be null.
#[derive(Clone, Copy, Debug, PartialEq, Eq, Structural)]
pub enum RequiredNullable {
    Missing,
    Null,
    Value(Uuid),
}

/// The body of a request to create a document.
#[derive(Debug)]
pub struct CreateDocumentBody {
    pub title: String,
    /// None where it is missing; none within where it is null.
    pub icon: Option<Option<String>>,
    pub parent_id: RequiredNullable,
}

/// A document to be created.
#[derive(Debug)]
pub struct CreateDocumentInput {
    pub parent_id: Option<Uuid>,
    pub title: String,
    pub icon: Option<Option<String>>,
}

/// The icon is a text.
pub open spec fn names_icon(icon: Option<Option<String>>) -> bool {
    icon matches Some(Some(_))
}

/// Whether the icon is a text.
fn has_icon(icon: &Option<Option<String>>) -> (r: bool)
    ensures
        r == names_icon(*icon),
{
    match icon {
        Some(Some(_)) => true,
        _ => false,
    }
}

/// Reads a document to be created. `title_ok` is whether the title, without white space around
/// it, is one, `icon_ok` whether the icon is; `in_project`, whether a parent is needed.
pub fn create_document_input(
    body: CreateDocumentBody,
    title_ok: bool,
    icon_ok: bool,
    in_project: bool,
) -> (r: Result<CreateDocumentInput, ApiError>)
    ensures
        if !title_ok || (names_icon(body.icon) && !icon_ok) || body.parent_id is Missing || (
        in_project && body.parent_id is Null) {
            error::api_refused(r, ProblemCode::InvalidInput)
        } else {
            r matches Ok(input) && {
                &&& input.title@ == text::trimmed(body.title@)
                &&& input.icon == body.icon
                &&& input.parent_id == match body.parent_id {
                    RequiredNullable::Value(id) => Some(id),
                    _ => None,
                }
            }
        },
{
    if !title_ok {
        return Err(ApiError::app(ProblemCode::InvalidInput));
    }
    if has_icon(&body.icon) && !icon_ok {
        return Err(ApiError::app(ProblemCode::InvalidInput));
    }
    let parent_id = match body.parent_id {
        RequiredNullable::Missing => {
            return Err(ApiError::app(ProblemCode::InvalidInput));
        },
        RequiredNullable::Null => None,
        RequiredNullable::Value(id) => Some(id),
    };
    if in_project && parent_id.is_none() {
        return Err(ApiError::app(ProblemCode::InvalidInput));
    }
    let title = trim(body.title.as_str()).to_owned();
    Ok(CreateDocumentInput { parent_id, title, icon: body.icon })
}

/// The body of a change of a document.
#[derive(Debug)]
pub struct PatchDocumentBody {
    pub title: Option<String>,
    pub icon: Option<Option<String>>,
    pub status: Option<String>,
}

/// Reads a change of a document. What is given has to be valid; a title is stripped of the white
/// space around it.
pub fn patch_document_input(
    body: PatchDocumentBody,
    title_ok: bool,
    icon_ok: bool,
    status_ok: bool,
) -> (r: Result<PatchDocumentBody, ApiError>)
    ensures
        if (body.title is Some && !title_ok) || (names_icon(body.icon) && !icon_ok) || (
        body.status is Some && !status_ok) {
            error::api_refused(r, ProblemCode::InvalidInput)
        } else {
            r matches Ok(input) && {
                &&& input.icon == body.icon
                &&& input.status == body.status
                &&& match body.title {
                    Some(t) => input.title matches Some(u) && u@ == text::trimmed(t@),
                    None => input.title is None,
                }
            }
        },
{
    if body.title.is_some() && !title_ok {
        return Err(ApiError::app(ProblemCode::InvalidInput));
    }
    if has_icon(&body.icon) && !icon_ok {
        return Err(ApiError::app(ProblemCode::InvalidInput));
    }
    if body.status.is_some() && !status_ok {
        return Err(ApiError::app(ProblemCode::InvalidInput));
    }
    let title = match body.title {
        Some(t) => Some(trim(t.as_str()).to_owned()),
        None => None,
    };
    Ok(PatchDocumentBody { title, icon: body.icon, status: body.status })
}

/// A query with a member that is not served here.
pub fn check_absent(value: Option<&str>) -> (r: Result<(), ApiError>)
    ensures
        r is Ok <==> value is None,
        r is Err ==> error::api_refused(r, ProblemCode::InvalidInput),
{
    if value.is_some() {
        Err(ApiError::app(ProblemCode::InvalidInput))
    } else {
        Ok(())
    }
}

/// What becomes of the children of a document that goes to the trash.
#[derive(Clone, Copy, Debug, PartialEq, Eq, Structural)]
pub enum TrashChildrenMode {
    Trash,
    Reparent,
}

pub fn parse_trash_children(value: Option<&str>) -> (r: Result<TrashChildrenMode, ApiError>)
    ensures
        match value {
            None => r == Ok::<_, ApiError>(TrashChildrenMode::Trash),
            Some(v) => if v@ == "trash"@ {
                r == Ok::<_, ApiError>(TrashChildrenMode::Trash)
            } else if v@ == "reparent"@ {
                r == Ok::<_, ApiError>(TrashChildrenMode::Reparent)
            } else {
                error::api_refused(r, ProblemCode::InvalidInput)
            },
        },
{
    match value {
        None => Ok(TrashChildrenMode::Trash),
        Some(v) => if same(v, "trash") {
            Ok(TrashChildrenMode::Trash)
        } else if same(v, "reparent") {
            Ok(TrashChildrenMode::Reparent)
        } else {
            Err(ApiError::app(ProblemCode::InvalidInput))
        },
    }
}

/// The answer to a change that has nothing to show.
pub fn document_done(done: Result<Result<(), DocumentDbError>, DbFailure>, max_depth: u64) -> (r:
    Result<OkResponse, ApiError>)
    ensures
        match done {
            Err(_) => error::api_refused(r, ProblemCode::Internal),
            Ok(Err(err)) => r matches Err(e) && e@ == document_problem(err, max_depth),
            Ok(Ok(_)) => r == Ok::<_, ApiError>(OkResponse { ok: true }),
        },
{
    match db_result(done, max_depth) {
        Err(e) => Err(e),
        Ok(_) => Ok(OkResponse { ok: true }),
    }
}

/// A document, as the store keeps it.
#[derive(Debug)]
pub struct DocumentMeta {
    pub id: Uuid,
    pub workspace_id: Uuid,
    pub title: String,
    pub number: Option<i64>,
    pub icon: Option<String>,
    pub path: String,
    pub parent_id: Option<Uuid>,
    pub sort_key: String,
    pub project_id: Option<Uuid>,
    pub status: String,
    pub schema_version: i32,
    pub version: i64,
    pub created_by: Uuid,
    pub created_at: Timestamp,
    pub updated_at: Timestamp,
    pub display_id: Option<String>,
    pub content_json: Json,
}

/// A document as it is answered.
#[derive(Debug)]
pub struct DocumentMetaResponse {
    pub id: String,
    pub workspace_id: String,
    pub title: String,
    pub number: Option<i64>,
    pub icon: Option<String>,
    pub path: String,
    pub parent_id: Option<String>,
    pub sort_key: String,
    pub project_id: Option<String>,
    pub status: String,
    pub schema_version: i32,
    pub version: i64,
    pub created_by: String,
    pub created_at: Timestamp,
    pub updated_at: Timestamp,
    pub display_id: Option<String>,
}

/// The answer about a document; its display id is told where `with_display_id`.
pub open spec fn answers_document(
    meta: DocumentMeta,
    with_display_id: bool,
    out: DocumentMetaResponse,
) -> bool {
    &&& out.id@ == ids::uuid_text(meta.id.0)
    &&& out.workspace_id@ == ids::uuid_text(meta.workspace_id.0)
    &&& out.title == meta.title
    &&& out.number == meta.number
    &&& out.icon == meta.icon
    &&& out.path == meta.path
    &&& error::text_view(out.parent_id) == ids::opt_text(meta.parent_id)
    &&& out.sort_key == meta.sort_key
    &&& error::text_view(out.project_id) == ids::opt_text(meta.project_id)
    &&& out.status == meta.status
    &&& out.schema_version == meta.schema_version
    &&& out.version == meta.version
    &&& out.created_by@ == ids::uuid_text(meta.created_by.0)
    &&& out.created_at == meta.created_at
    &&& out.updated_at == meta.updated_at
    &&& out.display_id == if with_display_id {
        meta.display_id
    } else {
        None
    }
}

pub fn meta_response(meta: DocumentMeta, include_display_id: bool) -> (r: DocumentMetaResponse)
    ensures
        answers_document(meta, include_display_id, r),
{
    DocumentMetaResponse {
        id: meta.id.text(),
        workspace_id: meta.workspace_id.text(),
        title: meta.title,
        number: meta.number,
        icon: meta.icon,
        path: meta.path,
        parent_id: text_of(meta.parent_id),
        sort_key: meta.sort_key,
        project_id: text_of(meta.project_id),
        status: meta.status,
        schema_version: meta.schema_version,
        version: meta.version,
        created_by: meta.created_by.text(),
        created_at: meta.created_at,
        updated_at: meta.updated_at,
        display_id: if include_display_id {
            meta.display_id
        } else {
            None
        },
    }
}

/// A route tells the display id of a document: where it is new, and throughout a project.
pub open spec fn tells_display_id(route: Route) -> bool {
    route == Route::CreateDocument || route == Route::DuplicateById || route
        == Route::DuplicateWiki || route == Route::DuplicateProject || route
        == Route::ProjectDocumentCreateDocument || route == Route::ProjectDocumentGetDocument
        || route == Route::ProjectDocumentPatchDocument || route
        == Route::ProjectDocumentMoveDocument
}

/// Whether a route tells the display id of a document.
pub fn shows_display_id(route: Route) -> (r: bool)
    ensures
        r == tells_display_id(route),
{
    match route {
        Route::CreateDocument | Route::DuplicateById | Route::DuplicateWiki
        | Route::DuplicateProject | Route::ProjectDocumentCreateDocument
        | Route::ProjectDocumentGetDocument | Route::ProjectDocumentPatchDocument
        | Route::ProjectDocumentMoveDocument => true,
        _ => false,
    }
}

/// The answer about a document that the store found or changed.
pub fn document_reply(
    found: Result<Result<DocumentMeta, DocumentDbError>, DbFailure>,
    include_display_id: bool,
    max_depth: u64,
) -> (r: Result<DocumentMetaResponse, ApiError>)
    ensures
        match found {
            Err(_) => error::api_refused(r, ProblemCode::Internal),
            Ok(Err(err)) => r matches Err(e) && e@ == document_problem(err, max_depth),
            Ok(Ok(meta)) => r matches Ok(out) && answers_document(meta, include_display_id, out),
        },
{
    match db_result(found, max_depth) {
        Err(e) => Err(e),
        Ok(meta) => Ok(meta_response(meta, include_display_id)),
    }
}

/// The contents of a document as they are answered.
#[derive(Debug)]
pub struct BodyResponse {
    pub content_json: Json,
    pub version: i64,
}

/// The answer with the contents of a document.
pub fn body_reply(
    found: Result<Result<DocumentMeta, DocumentDbError>, DbFailure>,
    max_depth: u64,
) -> (r: Result<BodyResponse, ApiError>)
    ensures
        match found {
            Err(_) => error::api_refused(r, ProblemCode::Internal),
            Ok(Err(err)) => r matches Err(e) && e@ == document_problem(err, max_depth),
            Ok(Ok(meta)) => r == Ok::<_, ApiError>(
                BodyResponse { content_json: meta.content_json, version: meta.version },
            ),
        },
{
    match db_result(found, max_depth) {
        Err(e) => Err(e),
        Ok(meta) => Ok(BodyResponse { content_json: meta.content_json, version: meta.version }),
    }
}

/// A document in a tree, as the store keeps it.
#[derive(Debug)]
pub struct TreeNode {
    pub id: Uuid,
    pub workspace_id: Uuid,
    pub parent_id: Option<Uuid>,
    pub project_id: Option<Uuid>,
    pub title: String,
    pub icon: Option<String>,
    pub path: String,
    pub sort_key: String,
    pub number: Option<i64>,
    pub status: String,
}

/// A document in a tree as it is answered.
#[derive(Debug)]
pub struct TreeNodeResponse {
    pub id: String,
    pub workspace_id: String,
    pub parent_id: Option<String>,
    pub project_id: Option<String>,
    pub title: String,
    pub icon: Option<String>,
    pub path: String,
    pub sort_key: String,
    pub number: Option<i64>,
    pub status: String,
}

/// The answer about a document in a tree.
pub open spec fn answers_node(node: TreeNode, out: TreeNodeResponse) -> bool {
    &&& out.id@ == ids::uuid_text(node.id.0)
    &&& out.workspace_id@ == ids::uuid_text(node.workspace_id.0)
    &&& error::text_view(out.parent_id) == ids::opt_text(node.parent_id)
    &&& error::text_view(out.project_id) == ids::opt_text(node.project_id)
    &&& out.title@ == node.title@
    &&& error::text_view(out.icon) == error::text_view(node.icon)
    &&& out.path@ == node.path@
    &&& out.sort_key@ == node.sort_key@
    &&& out.number == node.number
    &&& out.status@ == node.status@
}

/// A text that may be missing, once more.
pub fn copy_text(o: &Option<String>) -> (r: Option<String>)
    ensures
        error::text_view(r) == error::text_view(*o),
{
    match o {
        Some(s) => Some(s.clone()),
        None => None,
    }
}

pub fn node_response(node: &TreeNode) -> (r: TreeNodeResponse)
    ensures
        answers_node(*node, r),
{
    TreeNodeResponse {
        id: node.id.text(),
        workspace_id: node.workspace_id.text(),
        parent_id: text_of(node.parent_id),
        project_id: text_of(node.project_id),
        title: node.title.clone(),
        icon: copy_text(&node.icon),
        path: node.path.clone(),
        sort_key: node.sort_key.clone(),
        number: node.number,
        status: node.status.clone(),
    }
}

/// The answers about the documents of a tree, in its order.
pub fn tree_response(nodes: &[TreeNode]) -> (r: Vec<TreeNodeResponse>)
    ensures
        r@.len() == nodes@.len(),
        forall|i: int| 0 <= i < nodes@.len() ==> answers_node(#[trigger] nodes@[i], r@[i]),
{
    let mut out: Vec<TreeNodeResponse> = Vec::new();
    let mut i: usize = 0;
    while i < nodes.len()
        invariant
            i <= nodes@.len(),
            out@.len() == i,
            forall|j: int| 0 <= j < i ==> answers_node(#[trigger] nodes@[j], out@[j]),
        decreases nodes.len() - i,
    {
        out.push(node_response(&nodes[i]));
        i = i + 1;
    }
    out
}

/// A document above another, as the store keeps it.
#[derive(Debug)]
pub struct AncestorNode {
    pub id: Uuid,
    pub title: String,
    pub icon: Option<String>,
    pub path: String,
    pub project_id: Option<Uuid>,
    pub number: Option<i64>,
}

/// A document above another as it is answered.
#[derive(Debug)]
pub struct AncestorResponse {
    pub id: String,
    pub title: String,
    pub icon: Option<String>,
    pub path: String,
    pub project_id: Option<String>,
    pub number: Option<i64>,
}

/// The answer about a document above another.
pub open spec fn answers_ancestor(node: AncestorNode, out: AncestorResponse) -> bool {
    &&& out.id@ == ids::uuid_text(node.id.0)
    &&& out.title@ == node.title@
    &&& error::text_view(out.icon) == error::text_view(node.icon)
    &&& out.path@ == node.path@
    &&& error::text_view(out.project_id) == ids::opt_text(node.project_id)
    &&& out.number == node.number
}

/// The answers about the documents above another.
pub fn ancestors_response(nodes: &[AncestorNode]) -> (r: Vec<AncestorResponse>)
    ensures
        r@.len() == nodes@.len(),
        forall|i: int| 0 <= i < nodes@.len() ==> answers_ancestor(#[trigger] nodes@[i], r@[i]),
{
    let mut out: Vec<AncestorResponse> = Vec::new();
    let mut i: usize = 0;
    while i < nodes.len()
        invariant
            i <= nodes@.len(),
            out@.len() == i,
            forall|j: int| 0 <= j < i ==> answers_ancestor(#[trigger] nodes@[j], out@[j]),
        decreases nodes.len() - i,
    {
        let node = &nodes[i];
        out.push(
            AncestorResponse {
                id: node.id.text(),
                title: node.title.clone(),
                icon: copy_text(&node.icon),
                path: node.path.clone(),
                project_id: text_of(node.project_id),
                number: node.number,
            },
        );
        i = i + 1;
    }
    out
}

/// A document in the trash, as the store keeps it.
#[derive(Debug)]
pub struct TrashItem {
    pub id: Uuid,
    pub title: String,
    pub deleted_at: Timestamp,
    pub project_id: Option<Uuid>,
}

/// A document in the trash as it is answered.
#[derive(Debug)]
pub struct TrashItemResponse {
    pub id: String,
    pub title: String,
    pub deleted_at: Timestamp,
    pub project_id: Option<String>,
}

/// The answer about a document in the trash.
pub open spec fn answers_trash(item: TrashItem, out: TrashItemResponse) -> bool {
    &&& out.id@ == ids::uuid_text(item.id.0)
    &&& out.title@ == item.title@
    &&& out.deleted_at == item.deleted_at
    &&& error::text_view(out.project_id) == ids::opt_text(item.project_id)
}

/// The answers about the documents in the trash.
pub fn trash_response(items: &[TrashItem]) -> (r: Vec<TrashItemResponse>)
    ensures
        r@.len() == items@.len(),
        forall|i: int| 0 <= i < items@.len() ==> answers_trash(#[trigger] items@[i], r@[i]),
{
    let mut out: Vec<TrashItemResponse> = Vec::new();
    let mut i: usize = 0;
    while i < items.len()
        invariant
            i <= items@.len(),
            out@.len() == i,
            forall|j: int| 0 <= j < i ==> answers_trash(#[trigger] items@[j], out@[j]),
        decreases items.len() - i,
    {
        let item = &items[i];
        out.push(
            TrashItemResponse {
                id: item.id.text(),
                title: item.title.clone(),
                deleted_at: item.deleted_at,
                project_id: text_of(item.project_id),
            },
        );
        i = i + 1;
    }
    out
}

/// Charges a rendering to its user.
pub fn doc_export_limit(limiter: &mut RateLimiter, auth: &RequestAuth, now: u64) -> (r: Result<
    (),
    AppError,
>)
    requires
        old(limiter).wf(),
    ensures
        final(limiter).wf(),
        rate_limit::charged_once(
            old(limiter)@,
            final(limiter)@,
            "doc-export-user:"@ + ids::uuid_text(auth.user_id.0),
            DOC_EXPORT_LIMIT,
            DOC_EXPORT_WINDOW,
            now,
            error::told(r),
        ),
{
    let user = auth.user_id.text();
    let key = join2("doc-export-user:", user.as_str());
    charge(limiter, key.as_str(), DOC_EXPORT_LIMIT, DOC_EXPORT_WINDOW, now)
}

/// Why a document was not rendered.
#[derive(Clone, Copy, Debug, PartialEq, Eq, Structural)]
pub enum ExportRenderError {
    InvalidInput,
    TooLarge,
    Unavailable,
    Failed,
}

/// A rendered document.
#[derive(Debug)]
pub struct Rendered {
    pub content_type: String,
    pub bytes: Vec<u8>,
}

/// A body that is longer than documents may be.
pub open spec fn body_too_large() -> error::ApiErrorView {
    error::coded_problem(
        413,
        "document_body_exceeds_document_max_body_bytes"@,
        "document body exceeds document max body bytes"@,
    )
}

pub fn too_large() -> (r: ApiError)
    ensures
        r@ == body_too_large(),
{
    ApiError::coded(
        413,
        "document_body_exceeds_document_max_body_bytes",
        "document body exceeds document max body bytes",
    )
}

/// The headers that go before a rendered document.
pub open spec fn rendered_headers(content_type: Seq<char>, filename: Seq<char>) -> Seq<
    (Seq<char>, Seq<char>),
> {
    seq![
        ("content-type"@, content_type),
        ("content-disposition"@, named(filename)),
        ("cache-control"@, "private, no-store"@),
        ("x-content-type-options"@, "nosniff"@),
    ]
}

/// The naming of a file to be saved.
pub open spec fn named(filename: Seq<char>) -> Seq<char> {
    "attachment; filename=\""@ + filename + "\""@
}

/// The answer to a request for a rendering, under the name `filename`.
pub fn export_reply(rendered: Result<Rendered, ExportRenderError>, filename: &str) -> (r: Result<
    (Vec<Header>, Vec<u8>),
    ApiError,
>)
    ensures
        match rendered {
            Err(ExportRenderError::InvalidInput) => error::api_refused(
                r,
                ProblemCode::InvalidInput,
            ),
            Err(ExportRenderError::TooLarge) => r matches Err(e) && e@ == body_too_large(),
            Err(_) => error::api_refused(r, ProblemCode::Internal),
            Ok(file) => if header::sendable(file.content_type@) && header::sendable(
                named(filename@),
            ) {
                r matches Ok(reply) && header::header_views(reply.0@) == rendered_headers(
                    file.content_type@,
                    filename@,
                ) && reply.1 == file.bytes
            } else {
                error::api_refused(r, ProblemCode::Internal)
            },
        },
{
    let file = match rendered {
        Err(ExportRenderError::InvalidInput) => {
            return Err(ApiError::app(ProblemCode::InvalidInput));
        },
        Err(ExportRenderError::TooLarge) => {
            return Err(too_large());
        },
        Err(_) => {
            return Err(ApiError::app(ProblemCode::Internal));
        },
        Ok(file) => file,
    };
    let disposition = join3("attachment; filename=\"", filename, "\"");
    if !can_send(file.content_type.as_str()) || !can_send(disposition.as_str()) {
        return Err(ApiError::app(ProblemCode::Internal));
    }
    let mut headers: Vec<Header> = Vec::new();
    assert(header::header_views(headers@) == Seq::<(Seq<char>, Seq<char>)>::empty());
    put(&mut headers, "content-type", file.content_type.as_str());
    put(&mut headers, "content-disposition", disposition.as_str());
    put(&mut headers, "cache-control", "private, no-store");
    put(&mut headers, "x-content-type-options", "nosniff");
    Ok((headers, file.bytes))
}

/// Each value of a document is answered under the name that it is kept by.
pub proof fn law_document_is_answered_as_kept(
    meta: DocumentMeta,
    with_display_id: bool,
    out: DocumentMetaResponse,
)
    requires
        answers_document(meta, with_display_id, out),
    ensures
        ids::uuid_of(out.id@) == Some(meta.id.0),
        ids::uuid_of(out.workspace_id@) == Some(meta.workspace_id.0),
        out.title == meta.title,
        out.number == meta.number,
        out.icon == meta.icon,
        out.path == meta.path,
        match (meta.parent_id, out.parent_id) {
            (Some(id), Some(s)) => ids::uuid_of(s@) == Some(id.0),
            (None, None) => true,
            _ => false,
        },
        out.sort_key == meta.sort_key,
        match (meta.project_id, out.project_id) {
            (Some(id), Some(s)) => ids::uuid_of(s@) == Some(id.0),
            (None, None) => true,
            _ => false,
        },
        out.status == meta.status,
        out.schema_version == meta.schema_version,
        out.version == meta.version,
        ids::uuid_of(out.created_by@) == Some(meta.created_by.0),
        out.created_at == meta.created_at,
        out.updated_at == meta.updated_at,
        out.display_id == if with_display_id {
            meta.display_id
        } else {
            None
        },
{
    ids::law_uuid_round_trip(meta.id.0);
    ids::law_uuid_round_trip(meta.workspace_id.0);
    if let Some(id) = meta.parent_id {
        ids::law_uuid_round_trip(id.0);
    }
    if let Some(id) = meta.project_id {
        ids::law_uuid_round_trip(id.0);
    }
    ids::law_uuid_round_trip(meta.created_by.0);
}

/// Each value of a node is answered under the name that it is kept by.
pub proof fn law_node_is_answered_as_kept(node: TreeNode, out: TreeNodeResponse)
    requires
        answers_node(node, out),
    ensures
        ids::uuid_of(out.id@) == Some(node.id.0),
        ids::uuid_of(out.workspace_id@) == Some(node.workspace_id.0),
        match (node.parent_id, out.parent_id) {
            (Some(id), Some(s)) => ids::uuid_of(s@) == Some(id.0),
            (None, None) => true,
            _ => false,
        },
        match (node.project_id, out.project_id) {
            (Some(id), Some(s)) => ids::uuid_of(s@) == Some(id.0),
            (None, None) => true,
            _ => false,
        },
        out.title@ == node.title@,
        error::text_view(out.icon) == error::text_view(node.icon),
        out.path@ == node.path@,
        out.sort_key@ == node.sort_key@,
        out.number == node.number,
        out.status@ == node.status@,
{
    ids::law_uuid_round_trip(node.id.0);
    ids::law_uuid_round_trip(node.workspace_id.0);
    if let Some(id) = node.parent_id {
        ids::law_uuid_round_trip(id.0);
    }
    if let Some(id) = node.project_id {
        ids::law_uuid_round_trip(id.0);
    }
}

/// Each value of an ancestor is answered under the name that it is kept by.
pub proof fn law_ancestor_is_answered_as_kept(node: AncestorNode, out: AncestorResponse)
    requires
        answers_ancestor(node, out),
    ensures
        ids::uuid_of(out.id@) == Some(node.id.0),
        out.title@ == node.title@,
        error::text_view(out.icon) == error::text_view(node.icon),
        out.path@ == node.path@,
        match (node.project_id, out.project_id) {
            (Some(id), Some(s)) => ids::uuid_of(s@) == Some(id.0),
            (None, None) => true,
            _ => false,
        },
        out.number == node.number,
{
    ids::law_uuid_round_trip(node.id.0);
    if let Some(id) = node.project_id {
        ids::law_uuid_round_trip(id.0);
    }
}

/// Each value of a document in the trash is answered under the name that it is kept by.
pub proof fn law_trash_is_answered_as_kept(item: TrashItem, out: TrashItemResponse)
    requires
        answers_trash(item, out),
    ensures
        ids::uuid_of(out.id@) == Some(item.id.0),
        out.title@ == item.title@,
        out.deleted_at == item.deleted_at,
        match (item.project_id, out.project_id) {
            (Some(id), Some(s)) => ids::uuid_of(s@) == Some(id.0),
            (None, None) => true,
            _ => false,
        },
{
    ids::law_uuid_round_trip(item.id.0);
    if let Some(id) = item.project_id {
        ids::law_uuid_round_trip(id.0);
    }
}

/// A document is made with the title that was given, trimmed, the icon that was given, and under
/// the parent that was named; a parent has to be named, in a project one that is there.
pub proof fn law_document_is_made_as_asked(
    body: CreateDocumentBody,
    in_project: bool,
    r: Result<CreateDocumentInput, ApiError>,
)
    requires
        call_ensures(create_document_input, (body, true, true, in_project), r),
    ensures
        r is Ok <==> match body.parent_id {
            RequiredNullable::Missing => false,
            RequiredNullable::Null => !in_project,
            RequiredNullable::Value(_) => true,
        },
        r matches Ok(input) ==> {
            &&& input.title@ == text::trimmed(body.title@)
            &&& input.icon == body.icon
            &&& match body.parent_id {
                RequiredNullable::Value(id) => input.parent_id == Some(id),
                _ => input.parent_id is None,
            }
        },
{
}

/// A document is changed in what was given alone: each part is the one of its own name.
pub proof fn law_document_is_changed_as_asked(
    body: PatchDocumentBody,
    r: Result<PatchDocumentBody, ApiError>,
)
    requires
        call_ensures(patch_document_input, (body, true, true, true), r),
    ensures
        r is Ok,
        r->Ok_0.icon == body.icon,
        r->Ok_0.status == body.status,
        r->Ok_0.title is Some <==> body.title is Some,
        body.title matches Some(t) ==> r->Ok_0.title->0@ == text::trimmed(t@),
{
}

/// A document that was rendered is sent byte for byte, under its type and as a file of its name.
pub proof fn law_rendered_document_is_sent(
    file: Rendered,
    filename: &str,
    r: Result<(Vec<Header>, Vec<u8>), ApiError>,
)
    requires
        call_ensures(export_reply, (Ok(file), filename), r),
    ensures
        r matches Ok(reply) ==> {
            let headers = header::header_views(reply.0@);
            &&& reply.1 == file.bytes
            &&& headers.contains(("content-type"@, file.content_type@))
            &&& headers.contains(
                ("content-disposition"@, "attachment; filename=\""@ + filename@ + "\""@),
            )
            &&& headers.contains(("x-content-type-options"@, "nosniff"@))
        },
        r is Ok <==> header::sendable(file.content_type@) && header::sendable(
            "attachment; filename=\""@ + filename@ + "\""@,
        ),
{
    if let Ok(reply) = r {
        let headers = header::header_views(reply.0@);
        assert(headers[0] == ("content-type"@, file.content_type@));
        assert(headers[1] == ("content-disposition"@, named(filename@)));
        assert(headers[3] == ("x-content-type-options"@, "nosniff"@));
    }
}

/// What one may not see is answered as what is not there.
pub proof fn law_hidden_document_is_answered_as_missing(max_depth: u64)
    ensures
        document_problem(DocumentDbError::Forbidden, max_depth) == document_problem(
            DocumentDbError::NotFound,
            max_depth,
        ),
        document_problem(DocumentDbError::NotFound, max_depth) == error::api_problem(
            ProblemCode::NotFound,
        ),
{
}

/// What one user is told by this limit does not depend on the requests of another: `doc_export_limit`
/// answers `b` alike behind a request of `a` and without it.
pub proof fn law_doc_export_limit_is_one_for_each_user(
    first: &mut RateLimiter,
    second: &mut RateLimiter,
    alone: &mut RateLimiter,
    a: &RequestAuth,
    b: &RequestAuth,
    now: u64,
    later: u64,
    told_a: Result<(), AppError>,
    told_b: Result<(), AppError>,
    told_alone: Result<(), AppError>,
)
    requires
        first.wf(),
        second.wf(),
        alone.wf(),
        a.user_id != b.user_id,
        old(first)@.dom().len() < rate_limit::MAX_KEYS,
        old(second)@ == final(first)@,
        old(alone)@ == old(first)@,
        call_ensures(doc_export_limit, (first, a, now), told_a),
        call_ensures(doc_export_limit, (second, b, later), told_b),
        call_ensures(doc_export_limit, (alone, b, later), told_alone),
    ensures
        told_b is Ok <==> told_alone is Ok,
        error::told(told_b) == error::told(told_alone),
{
    ids::law_uuid_texts_are_apart(a.user_id.0, b.user_id.0);
    rate_limit::lemma_keys_apart("doc-export-user:"@, ids::uuid_text(a.user_id.0), ids::uuid_text(b.user_id.0));
    rate_limit::lemma_other_keys_stay(
        old(first)@,
        final(first)@,
        "doc-export-user:"@ + ids::uuid_text(a.user_id.0),
        DOC_EXPORT_LIMIT,
        DOC_EXPORT_WINDOW,
        now,
        "doc-export-user:"@ + ids::uuid_text(b.user_id.0),
    );
}

/// What lies under a document goes to the trash with it, unless it is asked to be moved up.
pub proof fn law_children_go_along_unless_asked(
    value: Option<&str>,
    r: Result<TrashChildrenMode, ApiError>,
)
    requires
        call_ensures(parse_trash_children, (value,), r),
    ensures
        r == Ok::<_, ApiError>(TrashChildrenMode::Reparent) <==> value is Some && value->0@
            == "reparent"@,
        r == Ok::<_, ApiError>(TrashChildrenMode::Trash) <==> value is None || value->0@
            == "trash"@,
        r is Err <==> value is Some && value->0@ != "reparent"@ && value->0@ != "trash"@,
{
    reveal_strlit("reparent");
    reveal_strlit("trash");
    assert("reparent"@.len() != "trash"@.len());
}

/// Refusals about documents are told apart, but for what one may not see.
pub proof fn law_refusals_of_documents_are_told_apart(
    a: DocumentDbError,
    b: DocumentDbError,
    max_depth: u64,
)
    requires
        a != b,
        document_problem(a, max_depth) == document_problem(b, max_depth),
    ensures
        a is NotFound || a is Forbidden,
        b is NotFound || b is Forbidden,
{
    reveal_strlit("document_affiliation_mismatch");
    reveal_strlit("tree_depth_limit");
    reveal_strlit("document_cycle");
    reveal_strlit("restore_rejected");
    reveal_strlit("root_document_trash");
    reveal_strlit("root_document_move");
    assert("document_affiliation_mismatch"@.len() == 29);
    assert("tree_depth_limit"@.len() == 16 && "tree_depth_limit"@[0] == 't');
    assert("restore_rejected"@.len() == 16 && "restore_rejected"@[0] == 'r');
    assert("document_cycle"@.len() == 14);
    assert("root_document_trash"@.len() == 19);
    assert("root_document_move"@.len() == 18);
}

} // verus!
