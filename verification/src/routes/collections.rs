//! Collections: their fields, items, values, queries and views.

use vstd::prelude::*;
use crate::answer;
use crate::answer::{Answer, answer_all};
use crate::authz::RequestAuth;
use crate::error;
use crate::error::{ApiError, ApiErrorView, AppError, ProblemCode};
use crate::ids;
use crate::ids::{Uuid, text_of, texts_of};
use crate::json;
use crate::json::{Json, JsonView, copy_json, put_member};
use crate::routes::documents::copy_text;
use crate::store::ApiRefusal;
use crate::text;
use crate::time;
use crate::time::{Date, Timestamp, date_of};

verus! {

/// A request that is no valid one.
pub fn invalid() -> (r: ApiError)
    ensures
        r@ == error::api_problem(ProblemCode::InvalidInput),
{
    ApiError::app(ProblemCode::InvalidInput)
}

/// What was changed had changed before.
pub fn version_conflict() -> (r: ApiError)
    ensures
        r@ == error::coded_problem(
            409,
            "document_version_mismatch"@,
            "document version mismatch"@,
        ),
{
    ApiError::coded(409, "document_version_mismatch", "document version mismatch")
}

/// Why the store refused a request about a collection.
#[derive(Clone, Copy, Debug, PartialEq, Eq, Structural)]
pub enum CollectionDbError {
    NotFound,
    Forbidden,
    InvalidInput,
    VersionConflict,
    ProjectArchived,
    TaskArchived,
    InvalidCursor,
}

/// The problem that a refusal about a collection is told as.
pub open spec fn collection_problem(err: CollectionDbError) -> ApiErrorView {
    match err {
        CollectionDbError::NotFound => error::api_problem(ProblemCode::NotFound),
        CollectionDbError::Forbidden => error::api_problem(ProblemCode::InsufficientPermissions),
        CollectionDbError::InvalidInput => error::api_problem(ProblemCode::InvalidInput),
        CollectionDbError::VersionConflict => error::coded_problem(
            409,
            "document_version_mismatch"@,
            "document version mismatch"@,
        ),
        CollectionDbError::ProjectArchived => error::api_problem(ProblemCode::ProjectArchived),
        CollectionDbError::TaskArchived => error::coded_problem(
            409,
            "task_archived"@,
            "task archived"@,
        ),
        CollectionDbError::InvalidCursor => ApiErrorView::App(
            error::problem_detail(400, ProblemCode::InvalidInput, "invalid_cursor"@),
        ),
    }
}

pub fn map_error(err: CollectionDbError) -> (r: ApiError)
    ensures
        r@ == collection_problem(err),
{
    match err {
        CollectionDbError::NotFound => ApiError::app(ProblemCode::NotFound),
        CollectionDbError::Forbidden => ApiError::app(ProblemCode::InsufficientPermissions),
        CollectionDbError::InvalidInput => invalid(),
        CollectionDbError::VersionConflict => version_conflict(),
        CollectionDbError::ProjectArchived => ApiError::app(ProblemCode::ProjectArchived),
        CollectionDbError::TaskArchived => ApiError::coded(409, "task_archived", "task archived"),
        CollectionDbError::InvalidCursor => ApiError::App(
            AppError::detail(400, ProblemCode::InvalidInput, "invalid_cursor"),
        ),
    }
}

impl ApiRefusal for CollectionDbError {
    open spec fn problem(&self) -> ApiErrorView {
        collection_problem(*self)
    }

    fn refusal(&self) -> (r: ApiError) {
        map_error(*self)
    }
}

/// Who acts on a collection.
#[derive(Debug)]
pub struct Actor {
    pub user_id: Uuid,
    pub credential_id: Uuid,
    pub client_ip: Option<String>,
}

/// Who acts on a collection, from an authenticated request.
pub fn actor(auth: &RequestAuth, client_ip: Option<String>) -> (r: Actor)
    ensures
        r == (Actor { user_id: auth.user_id, credential_id: auth.credential_id, client_ip }),
{
    Actor { user_id: auth.user_id, credential_id: auth.credential_id, client_ip }
}

/// The body of a request, where it is one: `read` says why it could not be read, `parsed` what it
/// stands for.
pub fn parsed_body<T>(read: Result<(), AppError>, parsed: Option<T>) -> (r: Result<T, ApiError>)
    ensures
        match (read, parsed) {
            (Err(e), _) => r matches Err(x) && x@ == ApiErrorView::App(e@),
            (Ok(_), Some(t)) => r == Ok::<T, ApiError>(t),
            (Ok(_), None) => error::api_refused(r, ProblemCode::InvalidInput),
        },
{
    if let Err(e) = read {
        return Err(ApiError::App(e));
    }
    match parsed {
        Some(t) => Ok(t),
        None => Err(invalid()),
    }
}

/// A collection, as the store keeps it.
#[derive(Debug)]
pub struct CollectionRow {
    pub id: Uuid,
    pub workspace_id: Uuid,
    pub project_id: Option<Uuid>,
    pub kind: String,
    pub name: String,
    pub version: i64,
    pub deleted_at: Option<Timestamp>,
}

/// A collection as it is answered.
#[derive(Debug)]
pub struct CollectionOutput {
    pub id: String,
    pub workspace_id: String,
    pub project_id: Option<String>,
    pub kind: String,
    pub name: String,
    pub version: i64,
    pub deleted_at: Option<Timestamp>,
}

impl Answer for CollectionRow {
    type Out = CollectionOutput;

    open spec fn answered(&self, out: &CollectionOutput) -> bool {
        &&& out.id@ == ids::uuid_text(self.id.0)
        &&& out.workspace_id@ == ids::uuid_text(self.workspace_id.0)
        &&& error::text_view(out.project_id) == ids::opt_text(self.project_id)
        &&& out.kind@ == self.kind@
        &&& out.name@ == self.name@
        &&& out.version == self.version
        &&& out.deleted_at == self.deleted_at
    }

    fn answer(&self) -> (r: CollectionOutput) {
        CollectionOutput {
            id: self.id.text(),
            workspace_id: self.workspace_id.text(),
            project_id: text_of(self.project_id),
            kind: self.kind.clone(),
            name: self.name.clone(),
            version: self.version,
            deleted_at: self.deleted_at,
        }
    }
}

/// The collection of a project, as the store keeps it.
#[derive(Debug)]
pub struct ProjectCollection {
    pub collection: CollectionRow,
    pub can_edit: bool,
    pub can_manage: bool,
}

/// The collection of a project as it is answered.
#[derive(Debug)]
pub struct ProjectCollectionOutput {
    pub base: CollectionOutput,
    pub can_edit: bool,
    pub can_manage: bool,
}

impl Answer for ProjectCollection {
    type Out = ProjectCollectionOutput;

    open spec fn answered(&self, out: &ProjectCollectionOutput) -> bool {
        &&& self.collection.answered(&out.base)
        &&& out.can_edit == self.can_edit
        &&& out.can_manage == self.can_manage
    }

    fn answer(&self) -> (r: ProjectCollectionOutput) {
        ProjectCollectionOutput {
            base: self.collection.answer(),
            can_edit: self.can_edit,
            can_manage: self.can_manage,
        }
    }
}

/// An option of a field, as the store keeps it.
#[derive(Debug)]
pub struct OptionRow {
    pub id: Uuid,
    pub key: String,
    pub label: String,
    pub sort_key: String,
    pub deleted_at: Option<Timestamp>,
}

/// An option of a field as it is answered.
#[derive(Debug)]
pub struct CollectionOptionOutput {
    pub id: String,
    pub key: String,
    pub label: String,
    pub sort_key: String,
    pub deleted_at: Option<Timestamp>,
}

impl Answer for OptionRow {
    type Out = CollectionOptionOutput;

    open spec fn answered(&self, out: &CollectionOptionOutput) -> bool {
        &&& out.id@ == ids::uuid_text(self.id.0)
        &&& out.key@ == self.key@
        &&& out.label@ == self.label@
        &&& out.sort_key@ == self.sort_key@
        &&& out.deleted_at == self.deleted_at
    }

    fn answer(&self) -> (r: CollectionOptionOutput) {
        CollectionOptionOutput {
            id: self.id.text(),
            key: self.key.clone(),
            label: self.label.clone(),
            sort_key: self.sort_key.clone(),
            deleted_at: self.deleted_at,
        }
    }
}

/// A field of a collection, as the store keeps it.
#[derive(Debug)]
pub struct FieldRow {
    pub id: Uuid,
    pub collection_id: Uuid,
    pub key: String,
    pub name: String,
    pub description: Option<String>,
    pub kind: String,
    pub version: i64,
    pub sort_key: String,
    pub deleted_at: Option<Timestamp>,
    pub options: Vec<OptionRow>,
}

/// A field of a collection as it is answered.
#[derive(Debug)]
pub struct CollectionFieldOutput {
    pub id: String,
    pub collection_id: String,
    pub key: String,
    pub name: String,
    pub description: Option<String>,
    pub kind: String,
    pub version: i64,
    pub sort_key: String,
    pub deleted_at: Option<Timestamp>,
    pub options: Vec<CollectionOptionOutput>,
}

impl Answer for FieldRow {
    type Out = CollectionFieldOutput;

    open spec fn answered(&self, out: &CollectionFieldOutput) -> bool {
        &&& out.id@ == ids::uuid_text(self.id.0)
        &&& out.collection_id@ == ids::uuid_text(self.collection_id.0)
        &&& out.key@ == self.key@
        &&& out.name@ == self.name@
        &&& error::text_view(out.description) == error::text_view(self.description)
        &&& out.kind@ == self.kind@
        &&& out.version == self.version
        &&& out.sort_key@ == self.sort_key@
        &&& out.deleted_at == self.deleted_at
        &&& answer::all_answered(self.options@, out.options@)
    }

    fn answer(&self) -> (r: CollectionFieldOutput) {
        CollectionFieldOutput {
            id: self.id.text(),
            collection_id: self.collection_id.text(),
            key: self.key.clone(),
            name: self.name.clone(),
            description: copy_text(&self.description),
            kind: self.kind.clone(),
            version: self.version,
            sort_key: self.sort_key.clone(),
            deleted_at: self.deleted_at,
            options: answer_all(self.options.as_slice()),
        }
    }
}

/// An item of a collection, as the store keeps it.
#[derive(Debug)]
pub struct ItemRow {
    pub id: Uuid,
    pub collection_id: Uuid,
    pub document_id: Option<Uuid>,
    pub task_id: Option<Uuid>,
    pub version: i64,
}

/// An item of a collection as it is answered.
#[derive(Debug)]
pub struct CollectionItemOutput {
    pub id: String,
    pub collection_id: String,
    pub document_id: Option<String>,
    pub task_id: Option<String>,
    pub version: i64,
}

impl Answer for ItemRow {
    type Out = CollectionItemOutput;

    open spec fn answered(&self, out: &CollectionItemOutput) -> bool {
        &&& out.id@ == ids::uuid_text(self.id.0)
        &&& out.collection_id@ == ids::uuid_text(self.collection_id.0)
        &&& error::text_view(out.document_id) == ids::opt_text(self.document_id)
        &&& error::text_view(out.task_id) == ids::opt_text(self.task_id)
        &&& out.version == self.version
    }

    fn answer(&self) -> (r: CollectionItemOutput) {
        CollectionItemOutput {
            id: self.id.text(),
            collection_id: self.collection_id.text(),
            document_id: text_of(self.document_id),
            task_id: text_of(self.task_id),
            version: self.version,
        }
    }
}

/// A view of a collection, as the store keeps it.
#[derive(Debug)]
pub struct CollectionViewRow {
    pub id: Uuid,
    pub collection_id: Uuid,
    pub owner_id: Uuid,
    pub version: i64,
    pub name: String,
    pub kind: String,
    pub visibility: String,
    pub config: Json,
}

/// A view of a collection as it is answered.
#[derive(Debug)]
pub struct CollectionViewOutput {
    pub id: String,
    pub collection_id: String,
    pub owner_id: String,
    pub version: i64,
    pub name: String,
    pub kind: String,
    pub visibility: String,
    pub config: Json,
}

impl Answer for CollectionViewRow {
    type Out = CollectionViewOutput;

    open spec fn answered(&self, out: &CollectionViewOutput) -> bool {
        &&& out.id@ == ids::uuid_text(self.id.0)
        &&& out.collection_id@ == ids::uuid_text(self.collection_id.0)
        &&& out.owner_id@ == ids::uuid_text(self.owner_id.0)
        &&& out.version == self.version
        &&& out.name@ == self.name@
        &&& out.kind@ == self.kind@
        &&& out.visibility@ == self.visibility@
        &&& out.config@ == self.config@
    }

    fn answer(&self) -> (r: CollectionViewOutput) {
        CollectionViewOutput {
            id: self.id.text(),
            collection_id: self.collection_id.text(),
            owner_id: self.owner_id.text(),
            version: self.version,
            name: self.name.clone(),
            kind: self.kind.clone(),
            visibility: self.visibility.clone(),
            config: copy_json(&self.config),
        }
    }
}

/// The views of a collection, as the store keeps them.
#[derive(Debug)]
pub struct ViewList {
    pub can_save: bool,
    pub can_manage: bool,
    pub items: Vec<CollectionViewRow>,
}

/// The views of a collection as they are answered.
#[derive(Debug)]
pub struct CollectionViewListResponse {
    pub can_save: bool,
    pub can_manage: bool,
    pub items: Vec<CollectionViewOutput>,
}

impl Answer for ViewList {
    type Out = CollectionViewListResponse;

    open spec fn answered(&self, out: &CollectionViewListResponse) -> bool {
        &&& out.can_save == self.can_save
        &&& out.can_manage == self.can_manage
        &&& answer::all_answered(self.items@, out.items@)
    }

    fn answer(&self) -> (r: CollectionViewListResponse) {
        CollectionViewListResponse {
            can_save: self.can_save,
            can_manage: self.can_manage,
            items: answer_all(self.items.as_slice()),
        }
    }
}

/// The values of an item by field: the last where a field has more.
pub open spec fn values_view(values: Seq<(Uuid, Json)>) -> Seq<(Seq<char>, JsonView)>
    decreases values.len(),
{
    if values.len() == 0 {
        Seq::empty()
    } else {
        json::with_member(
            values_view(values.drop_last()),
            ids::uuid_text(values.last().0.0),
            values.last().1@,
        )
    }
}

/// The values of an item as an object.
pub fn values_object(values: &[(Uuid, Json)]) -> (r: Json)
    ensures
        r@ == JsonView::Object(values_view(values@)),
{
    let mut members: Vec<(String, Json)> = Vec::new();
    let mut i: usize = 0;
    assert(json::members_view(members@) == values_view(values@.subrange(0, 0)));
    while i < values.len()
        invariant
            i <= values@.len(),
            json::members_view(members@) == values_view(values@.subrange(0, i as int)),
        decreases values.len() - i,
    {
        proof {
            let next = values@.subrange(0, i + 1);
            assert(next.drop_last() == values@.subrange(0, i as int));
            assert(next.last() == values@[i as int]);
        }
        put_member(&mut members, values[i].0.text(), copy_json(&values[i].1));
        i = i + 1;
    }
    assert(values@.subrange(0, i as int) == values@);
    proof {
        json::lemma_object_view(members);
    }
    Json::Object(members)
}

/// The item of a document or a task, as the store keeps it.
#[derive(Debug)]
pub struct ItemLookup {
    pub item: Option<ItemRow>,
    pub values: Vec<(Uuid, Json)>,
    pub can_edit: bool,
}

/// The item of a document or a task as it is answered.
#[derive(Debug)]
pub struct CollectionItemLookupResponse {
    pub item: Option<CollectionItemOutput>,
    pub values: Json,
    pub can_edit: bool,
}

impl Answer for ItemLookup {
    type Out = CollectionItemLookupResponse;

    open spec fn answered(&self, out: &CollectionItemLookupResponse) -> bool {
        &&& match self.item {
            Some(item) => out.item matches Some(o) && item.answered(&o),
            None => out.item is None,
        }
        &&& out.values@ == JsonView::Object(values_view(self.values@))
        &&& out.can_edit == self.can_edit
    }

    fn answer(&self) -> (r: CollectionItemLookupResponse) {
        CollectionItemLookupResponse {
            item: match &self.item {
                Some(item) => Some(item.answer()),
                None => None,
            },
            values: values_object(self.values.as_slice()),
            can_edit: self.can_edit,
        }
    }
}

/// A row that a query found.
#[derive(Debug)]
pub struct QueryRow {
    pub id: Uuid,
    pub can_edit: bool,
    pub document_id: Option<Uuid>,
    pub task_id: Option<Uuid>,
    pub display_id: Option<String>,
    pub title: String,
    pub task_type: Option<String>,
    pub status_id: Option<Uuid>,
    pub start_date: Option<Date>,
    pub due_date: Option<Date>,
    pub due_at: Option<Timestamp>,
    pub version: i64,
    pub group: Option<String>,
    pub date: Option<Date>,
    pub values: Vec<(Uuid, Json)>,
}

/// A row that a query found as it is answered.
#[derive(Debug)]
pub struct CollectionQueryItemOutput {
    pub id: String,
    pub can_edit: bool,
    pub document_id: Option<String>,
    pub task_id: Option<String>,
    pub display_id: Option<String>,
    pub title: String,
    pub task_type: Option<String>,
    pub status_id: Option<String>,
    pub start_date: Option<String>,
    pub due_date: Option<String>,
    pub due_at: Option<Timestamp>,
    pub version: i64,
    pub group: Option<String>,
    pub date: Option<String>,
    pub values: Json,
}

impl Answer for QueryRow {
    type Out = CollectionQueryItemOutput;

    open spec fn answered(&self, out: &CollectionQueryItemOutput) -> bool {
        &&& out.id@ == ids::uuid_text(self.id.0)
        &&& out.can_edit == self.can_edit
        &&& error::text_view(out.document_id) == ids::opt_text(self.document_id)
        &&& error::text_view(out.task_id) == ids::opt_text(self.task_id)
        &&& error::text_view(out.display_id) == error::text_view(self.display_id)
        &&& out.title@ == self.title@
        &&& error::text_view(out.task_type) == error::text_view(self.task_type)
        &&& error::text_view(out.status_id) == ids::opt_text(self.status_id)
        &&& error::text_view(out.start_date) == time::opt_date(self.start_date)
        &&& error::text_view(out.due_date) == time::opt_date(self.due_date)
        &&& out.due_at == self.due_at
        &&& out.version == self.version
        &&& error::text_view(out.group) == error::text_view(self.group)
        &&& error::text_view(out.date) == time::opt_date(self.date)
        &&& out.values@ == JsonView::Object(values_view(self.values@))
    }

    fn answer(&self) -> (r: CollectionQueryItemOutput) {
        CollectionQueryItemOutput {
            id: self.id.text(),
            can_edit: self.can_edit,
            document_id: text_of(self.document_id),
            task_id: text_of(self.task_id),
            display_id: copy_text(&self.display_id),
            title: self.title.clone(),
            task_type: copy_text(&self.task_type),
            status_id: text_of(self.status_id),
            start_date: date_of(self.start_date),
            due_date: date_of(self.due_date),
            due_at: self.due_at,
            version: self.version,
            group: copy_text(&self.group),
            date: date_of(self.date),
            values: values_object(self.values.as_slice()),
        }
    }
}

/// A row that a query shows in part.
#[derive(Debug)]
pub struct PreviewRow(pub QueryRow);

/// A row that a query shows in part as it is answered.
#[derive(Debug)]
pub struct CollectionQueryPreviewOutput {
    pub id: String,
    pub document_id: Option<String>,
    pub task_id: Option<String>,
    pub display_id: Option<String>,
    pub title: String,
    pub status_id: Option<String>,
    pub date: Option<String>,
    pub can_edit: bool,
    pub version: i64,
    pub start_date: Option<String>,
    pub due_date: Option<String>,
    pub due_at: Option<Timestamp>,
    pub values: Json,
}

impl Answer for PreviewRow {
    type Out = CollectionQueryPreviewOutput;

    open spec fn answered(&self, out: &CollectionQueryPreviewOutput) -> bool {
        let row = self.0;
        &&& out.id@ == ids::uuid_text(row.id.0)
        &&& error::text_view(out.document_id) == ids::opt_text(row.document_id)
        &&& error::text_view(out.task_id) == ids::opt_text(row.task_id)
        &&& error::text_view(out.display_id) == error::text_view(row.display_id)
        &&& out.title@ == row.title@
        &&& error::text_view(out.status_id) == ids::opt_text(row.status_id)
        &&& error::text_view(out.date) == time::opt_date(row.date)
        &&& out.can_edit == row.can_edit
        &&& out.version == row.version
        &&& error::text_view(out.start_date) == time::opt_date(row.start_date)
        &&& error::text_view(out.due_date) == time::opt_date(row.due_date)
        &&& out.due_at == row.due_at
        &&& out.values@ == JsonView::Object(values_view(row.values@))
    }

    fn answer(&self) -> (r: CollectionQueryPreviewOutput) {
        let row = &self.0;
        CollectionQueryPreviewOutput {
            id: row.id.text(),
            document_id: text_of(row.document_id),
            task_id: text_of(row.task_id),
            display_id: copy_text(&row.display_id),
            title: row.title.clone(),
            status_id: text_of(row.status_id),
            date: date_of(row.date),
            can_edit: row.can_edit,
            version: row.version,
            start_date: date_of(row.start_date),
            due_date: date_of(row.due_date),
            due_at: row.due_at,
            values: values_object(row.values.as_slice()),
        }
    }
}

/// How many rows a query found on a day.
#[derive(Debug)]
pub struct QueryDay {
    pub date: Option<Date>,
    pub count: i64,
}

/// How many rows a query found on a day as it is answered.
#[derive(Debug)]
pub struct CollectionQueryDayOutput {
    pub date: Option<String>,
    pub count: i64,
}

impl Answer for QueryDay {
    type Out = CollectionQueryDayOutput;

    open spec fn answered(&self, out: &CollectionQueryDayOutput) -> bool {
        error::text_view(out.date) == time::opt_date(self.date) && out.count == self.count
    }

    fn answer(&self) -> (r: CollectionQueryDayOutput) {
        CollectionQueryDayOutput { date: date_of(self.date), count: self.count }
    }
}

/// A group of rows that a query found.
#[derive(Debug)]
pub struct QueryGroup {
    pub id: Option<String>,
    pub name: Option<String>,
    pub item_ids: Vec<Uuid>,
    pub count: i64,
    pub deleted: bool,
}

/// A group of rows that a query found as it is answered.
#[derive(Debug)]
pub struct CollectionQueryGroupOutput {
    pub id: Option<String>,
    pub name: Option<String>,
    pub item_ids: Vec<String>,
    pub count: i64,
    pub deleted: bool,
}

impl Answer for QueryGroup {
    type Out = CollectionQueryGroupOutput;

    open spec fn answered(&self, out: &CollectionQueryGroupOutput) -> bool {
        &&& error::text_view(out.id) == error::text_view(self.id)
        &&& error::text_view(out.name) == error::text_view(self.name)
        &&& text::views(out.item_ids@) == ids::uuid_texts(self.item_ids@)
        &&& out.count == self.count
        &&& out.deleted == self.deleted
    }

    fn answer(&self) -> (r: CollectionQueryGroupOutput) {
        CollectionQueryGroupOutput {
            id: copy_text(&self.id),
            name: copy_text(&self.name),
            item_ids: texts_of(self.item_ids.as_slice()),
            count: self.count,
            deleted: self.deleted,
        }
    }
}

/// What a query found.
#[derive(Debug)]
pub struct QueryResult {
    pub can_edit: bool,
    pub days: Vec<QueryDay>,
    pub items: Vec<QueryRow>,
    pub groups: Vec<QueryGroup>,
    pub count: i64,
    pub next_cursor: Option<String>,
    pub previews: Vec<PreviewRow>,
}

/// What a query found as it is answered.
#[derive(Debug)]
pub struct CollectionQueryResponse {
    pub can_edit: bool,
    pub days: Vec<CollectionQueryDayOutput>,
    pub items: Vec<CollectionQueryItemOutput>,
    pub groups: Vec<CollectionQueryGroupOutput>,
    pub count: i64,
    pub next_cursor: Option<String>,
    pub previews: Vec<CollectionQueryPreviewOutput>,
}

impl Answer for QueryResult {
    type Out = CollectionQueryResponse;

    open spec fn answered(&self, out: &CollectionQueryResponse) -> bool {
        &&& out.can_edit == self.can_edit
        &&& answer::all_answered(self.days@, out.days@)
        &&& answer::all_answered(self.items@, out.items@)
        &&& answer::all_answered(self.groups@, out.groups@)
        &&& out.count == self.count
        &&& error::text_view(out.next_cursor) == error::text_view(self.next_cursor)
        &&& answer::all_answered(self.previews@, out.previews@)
    }

    fn answer(&self) -> (r: CollectionQueryResponse) {
        CollectionQueryResponse {
            can_edit: self.can_edit,
            days: answer_all(self.days.as_slice()),
            items: answer_all(self.items.as_slice()),
            groups: answer_all(self.groups.as_slice()),
            count: self.count,
            next_cursor: copy_text(&self.next_cursor),
            previews: answer_all(self.previews.as_slice()),
        }
    }
}

/// Each value of a collection is answered under the name that it is kept by.
pub proof fn law_collection_is_answered_as_kept(row: CollectionRow, out: CollectionOutput)
    requires
        row.answered(&out),
    ensures
        ids::uuid_of(out.id@) == Some(row.id.0),
        ids::uuid_of(out.workspace_id@) == Some(row.workspace_id.0),
        match (row.project_id, out.project_id) {
            (Some(id), Some(s)) => ids::uuid_of(s@) == Some(id.0),
            (None, None) => true,
            _ => false,
        },
        out.kind@ == row.kind@,
        out.name@ == row.name@,
        out.version == row.version,
        out.deleted_at == row.deleted_at,
{
    ids::law_uuid_round_trip(row.id.0);
    ids::law_uuid_round_trip(row.workspace_id.0);
    if let Some(id) = row.project_id {
        ids::law_uuid_round_trip(id.0);
    }
}

/// Each value of a project collection is answered under the name that it is kept by.
pub proof fn law_project_collection_is_answered_as_kept(
    row: ProjectCollection,
    out: ProjectCollectionOutput,
)
    requires
        row.answered(&out),
    ensures
        row.collection.answered(&out.base),
        out.can_edit == row.can_edit,
        out.can_manage == row.can_manage,
{
}

/// Each value of an option is answered under the name that it is kept by.
pub proof fn law_option_is_answered_as_kept(row: OptionRow, out: CollectionOptionOutput)
    requires
        row.answered(&out),
    ensures
        ids::uuid_of(out.id@) == Some(row.id.0),
        out.key@ == row.key@,
        out.label@ == row.label@,
        out.sort_key@ == row.sort_key@,
        out.deleted_at == row.deleted_at,
{
    ids::law_uuid_round_trip(row.id.0);
}

/// Each value of a field is answered under the name that it is kept by.
pub proof fn law_field_is_answered_as_kept(row: FieldRow, out: CollectionFieldOutput)
    requires
        row.answered(&out),
    ensures
        ids::uuid_of(out.id@) == Some(row.id.0),
        ids::uuid_of(out.collection_id@) == Some(row.collection_id.0),
        out.key@ == row.key@,
        out.name@ == row.name@,
        error::text_view(out.description) == error::text_view(row.description),
        out.kind@ == row.kind@,
        out.version == row.version,
        out.sort_key@ == row.sort_key@,
        out.deleted_at == row.deleted_at,
        answer::all_answered(row.options@, out.options@),
{
    ids::law_uuid_round_trip(row.id.0);
    ids::law_uuid_round_trip(row.collection_id.0);
}

/// Each value of an item is answered under the name that it is kept by.
pub proof fn law_item_is_answered_as_kept(row: ItemRow, out: CollectionItemOutput)
    requires
        row.answered(&out),
    ensures
        ids::uuid_of(out.id@) == Some(row.id.0),
        ids::uuid_of(out.collection_id@) == Some(row.collection_id.0),
        match (row.document_id, out.document_id) {
            (Some(id), Some(s)) => ids::uuid_of(s@) == Some(id.0),
            (None, None) => true,
            _ => false,
        },
        match (row.task_id, out.task_id) {
            (Some(id), Some(s)) => ids::uuid_of(s@) == Some(id.0),
            (None, None) => true,
            _ => false,
        },
        out.version == row.version,
{
    ids::law_uuid_round_trip(row.id.0);
    ids::law_uuid_round_trip(row.collection_id.0);
    if let Some(id) = row.document_id {
        ids::law_uuid_round_trip(id.0);
    }
    if let Some(id) = row.task_id {
        ids::law_uuid_round_trip(id.0);
    }
}

/// Each value of a collection view is answered under the name that it is kept by.
pub proof fn law_collection_view_is_answered_as_kept(
    row: CollectionViewRow,
    out: CollectionViewOutput,
)
    requires
        row.answered(&out),
    ensures
        ids::uuid_of(out.id@) == Some(row.id.0),
        ids::uuid_of(out.collection_id@) == Some(row.collection_id.0),
        ids::uuid_of(out.owner_id@) == Some(row.owner_id.0),
        out.version == row.version,
        out.name@ == row.name@,
        out.kind@ == row.kind@,
        out.visibility@ == row.visibility@,
        out.config@ == row.config@,
{
    ids::law_uuid_round_trip(row.id.0);
    ids::law_uuid_round_trip(row.collection_id.0);
    ids::law_uuid_round_trip(row.owner_id.0);
}

/// Each value of a view list is answered under the name that it is kept by.
pub proof fn law_view_list_is_answered_as_kept(row: ViewList, out: CollectionViewListResponse)
    requires
        row.answered(&out),
    ensures
        out.can_save == row.can_save,
        out.can_manage == row.can_manage,
        answer::all_answered(row.items@, out.items@),
{
}

/// Each value of an item lookup is answered under the name that it is kept by.
pub proof fn law_item_lookup_is_answered_as_kept(row: ItemLookup, out: CollectionItemLookupResponse)
    requires
        row.answered(&out),
    ensures
        match row.item {
            Some(item) => out.item matches Some(o) && item.answered(&o),
            None => out.item is None,
        },
        out.values@ == JsonView::Object(values_view(row.values@)),
        out.can_edit == row.can_edit,
{
}

/// Each value of a query is answered under the name that it is kept by.
pub proof fn law_query_is_answered_as_kept(row: QueryRow, out: CollectionQueryItemOutput)
    requires
        row.answered(&out),
    ensures
        ids::uuid_of(out.id@) == Some(row.id.0),
        out.can_edit == row.can_edit,
        match (row.document_id, out.document_id) {
            (Some(id), Some(s)) => ids::uuid_of(s@) == Some(id.0),
            (None, None) => true,
            _ => false,
        },
        match (row.task_id, out.task_id) {
            (Some(id), Some(s)) => ids::uuid_of(s@) == Some(id.0),
            (None, None) => true,
            _ => false,
        },
        error::text_view(out.display_id) == error::text_view(row.display_id),
        out.title@ == row.title@,
        error::text_view(out.task_type) == error::text_view(row.task_type),
        match (row.status_id, out.status_id) {
            (Some(id), Some(s)) => ids::uuid_of(s@) == Some(id.0),
            (None, None) => true,
            _ => false,
        },
        error::text_view(out.start_date) == time::opt_date(row.start_date),
        error::text_view(out.due_date) == time::opt_date(row.due_date),
        out.due_at == row.due_at,
        out.version == row.version,
        error::text_view(out.group) == error::text_view(row.group),
        error::text_view(out.date) == time::opt_date(row.date),
        out.values@ == JsonView::Object(values_view(row.values@)),
{
    ids::law_uuid_round_trip(row.id.0);
    if let Some(id) = row.document_id {
        ids::law_uuid_round_trip(id.0);
    }
    if let Some(id) = row.task_id {
        ids::law_uuid_round_trip(id.0);
    }
    if let Some(id) = row.status_id {
        ids::law_uuid_round_trip(id.0);
    }
}

/// Each value of a preview is answered under the name that it is kept by.
pub proof fn law_preview_is_answered_as_kept(row: PreviewRow, out: CollectionQueryPreviewOutput)
    requires
        row.answered(&out),
    ensures
        ids::uuid_of(out.id@) == Some(row.0.id.0),
        match (row.0.document_id, out.document_id) {
            (Some(id), Some(s)) => ids::uuid_of(s@) == Some(id.0),
            (None, None) => true,
            _ => false,
        },
        match (row.0.task_id, out.task_id) {
            (Some(id), Some(s)) => ids::uuid_of(s@) == Some(id.0),
            (None, None) => true,
            _ => false,
        },
        error::text_view(out.display_id) == error::text_view(row.0.display_id),
        out.title@ == row.0.title@,
        match (row.0.status_id, out.status_id) {
            (Some(id), Some(s)) => ids::uuid_of(s@) == Some(id.0),
            (None, None) => true,
            _ => false,
        },
        error::text_view(out.date) == time::opt_date(row.0.date),
        out.can_edit == row.0.can_edit,
        out.version == row.0.version,
        error::text_view(out.start_date) == time::opt_date(row.0.start_date),
        error::text_view(out.due_date) == time::opt_date(row.0.due_date),
        out.due_at == row.0.due_at,
        out.values@ == JsonView::Object(values_view(row.0.values@)),
{
    ids::law_uuid_round_trip(row.0.id.0);
    if let Some(id) = row.0.document_id {
        ids::law_uuid_round_trip(id.0);
    }
    if let Some(id) = row.0.task_id {
        ids::law_uuid_round_trip(id.0);
    }
    if let Some(id) = row.0.status_id {
        ids::law_uuid_round_trip(id.0);
    }
}

/// Each value of a query group is answered under the name that it is kept by.
pub proof fn law_query_group_is_answered_as_kept(row: QueryGroup, out: CollectionQueryGroupOutput)
    requires
        row.answered(&out),
    ensures
        error::text_view(out.id) == error::text_view(row.id),
        error::text_view(out.name) == error::text_view(row.name),
        text::views(out.item_ids@) == ids::uuid_texts(row.item_ids@),
        out.count == row.count,
        out.deleted == row.deleted,
{
}

/// Each value of a query result is answered under the name that it is kept by.
pub proof fn law_query_result_is_answered_as_kept(row: QueryResult, out: CollectionQueryResponse)
    requires
        row.answered(&out),
    ensures
        out.can_edit == row.can_edit,
        answer::all_answered(row.days@, out.days@),
        answer::all_answered(row.items@, out.items@),
        answer::all_answered(row.groups@, out.groups@),
        out.count == row.count,
        error::text_view(out.next_cursor) == error::text_view(row.next_cursor),
        answer::all_answered(row.previews@, out.previews@),
{
}

/// The value of a field is found under its id: the last one that was given for it, and none where
/// none was given.
pub proof fn law_value_is_found_under_its_field(values: Seq<(Uuid, Json)>, id: Uuid)
    ensures
        match json::find(values_view(values), ids::uuid_text(id.0)) {
            Some(v) => exists|k: int|
                0 <= k < values.len() && (#[trigger] values[k]).0 == id && values[k].1@ == v
                    && forall|j: int| k < j < values.len() ==> (#[trigger] values[j]).0 != id,
            None => forall|j: int| 0 <= j < values.len() ==> (#[trigger] values[j]).0 != id,
        },
    decreases values.len(),
{
    if values.len() > 0 {
        let n = values.len() - 1;
        let front = values.drop_last();
        let last = values[n];
        law_value_is_found_under_its_field(front, id);
        ids::law_uuid_texts_are_apart(last.0.0, id.0);
        json::law_put_member_is_found(
            values_view(front),
            ids::uuid_text(last.0.0),
            last.1@,
            ids::uuid_text(id.0),
        );
        assert(values.last() == last);
        if last.0 == id {
            assert(values[n].0 == id);
        } else {
            match json::find(values_view(front), ids::uuid_text(id.0)) {
                Some(v) => {
                    let k = choose|k: int|
                        0 <= k < front.len() && (#[trigger] front[k]).0 == id && front[k].1@ == v
                            && forall|j: int|
                            k < j < front.len() ==> (#[trigger] front[j]).0 != id;
                    assert(values[k].0 == id);
                    assert forall|j: int| k < j < values.len() implies (#[trigger] values[j]).0
                        != id by {
                        if j < n {
                            assert(front[j] == values[j]);
                        }
                    }
                },
                None => {
                    assert forall|j: int| 0 <= j < values.len() implies (#[trigger] values[j]).0
                        != id by {
                        if j < n {
                            assert(front[j] == values[j]);
                        }
                    }
                },
            }
        }
    }
}

} // verus!
