//! The contents of documents: whole bodies, single blocks, copies, and what lies around a
//! document in the tree.
//!
//! A write from outside never touches the stored body. It is handed to the live document with
//! the version that it was made from, so that no edit of another writer is lost.

use vstd::prelude::*;
use vstd::string::*;
use crate::error;
use crate::error::{ApiError, AppError, DbFailure, ProblemCode};
use crate::guard;
use crate::guard::check_origin;
use crate::ids;
use crate::ids::Uuid;
use crate::json;
use crate::json::{Json, JsonView, member, parse_json};
use crate::rate_limit;
use crate::rate_limit::{REVISION_WRITE_LIMIT, REVISION_WRITE_WINDOW, RateLimiter, charge};
use crate::routes::documents;
use crate::routes::documents::{
    TreeNode,
    TreeNodeResponse,
    copy_text,
    node_response,
    too_large,
};
use crate::text;
use crate::text::{join2, same, trim};

verus! {

/// How often a change of a block is tried while others edit the document.
pub const PATCH_BLOCK_ATTEMPTS: usize = 3;

/// Where a document belongs.
#[derive(Clone, Copy, Debug, PartialEq, Eq, Structural)]
pub enum DocumentScope {
    Wiki,
    Project(Uuid),
}

/// A body that is not one.
pub open spec fn body_invalid() -> error::ApiErrorView {
    error::coded_problem(400, "invalid_document_body"@, "invalid document body"@)
}

pub fn invalid_body() -> (r: ApiError)
    ensures
        r@ == body_invalid(),
{
    ApiError::coded(400, "invalid_document_body", "invalid document body")
}

/// The live documents cannot be reached.
pub open spec fn collab_missing() -> error::ApiErrorView {
    error::coded_problem(503, "collab_unavailable"@, "collab unavailable"@)
}

pub fn collab_unavailable() -> (r: ApiError)
    ensures
        r@ == collab_missing(),
{
    ApiError::coded(503, "collab_unavailable", "collab unavailable")
}

/// Charges a write of a body, a block or a revision to its user.
pub fn revision_write_limit(limiter: &mut RateLimiter, user_id: Uuid, now: u64) -> (r: Result<
    (),
    AppError,
>)
    requires
        old(limiter).wf(),
    ensures
        final(limiter).wf(),
        rate_limit::charged_once(
            old(limiter)@,
            final(limiter)@,
            "revision-write:"@ + ids::uuid_text(user_id.0),
            REVISION_WRITE_LIMIT,
            REVISION_WRITE_WINDOW,
            now,
            error::told(r),
        ),
{
    let user = user_id.text();
    let key = join2("revision-write:", user.as_str());
    charge(limiter, key.as_str(), REVISION_WRITE_LIMIT, REVISION_WRITE_WINDOW, now)
}

/// Why contents were not converted.
#[derive(Clone, Copy, Debug, PartialEq, Eq, Structural)]
pub enum ConvertError {
    InvalidInput,
    TooLarge,
    Other,
    /// There is no converter.
    Missing,
}

/// The problem that a failed conversion ends in.
pub open spec fn convert_problem(err: ConvertError) -> error::ApiErrorView {
    match err {
        ConvertError::InvalidInput => body_invalid(),
        ConvertError::TooLarge => documents::body_too_large(),
        ConvertError::Other => error::api_problem(ProblemCode::Internal),
        ConvertError::Missing => error::api_problem(ProblemCode::Internal),
    }
}

pub fn map_convert(err: ConvertError) -> (r: ApiError)
    ensures
        r@ == convert_problem(err),
{
    match err {
        ConvertError::InvalidInput => invalid_body(),
        ConvertError::TooLarge => too_large(),
        ConvertError::Other => ApiError::app(ProblemCode::Internal),
        ConvertError::Missing => ApiError::app(ProblemCode::Internal),
    }
}

/// Why no body could be derived from contents.
#[derive(Clone, Copy, Debug, PartialEq, Eq, Structural)]
pub enum DerivedBodyError {
    TooLarge,
    InvalidDocumentBody,
}

/// The problem that a body that was not derived ends in.
pub open spec fn derived_problem(err: DerivedBodyError) -> error::ApiErrorView {
    match err {
        DerivedBodyError::TooLarge => documents::body_too_large(),
        DerivedBodyError::InvalidDocumentBody => body_invalid(),
    }
}

pub fn map_derived(err: DerivedBodyError) -> (r: ApiError)
    ensures
        r@ == derived_problem(err),
{
    match err {
        DerivedBodyError::TooLarge => too_large(),
        DerivedBodyError::InvalidDocumentBody => invalid_body(),
    }
}

/// Why the live document did not take a write.
#[derive(Clone, Copy, Debug, PartialEq, Eq, Structural)]
pub enum BodyWriteError {
    Rejected,
    Unavailable,
    Conflict,
    TooLarge,
    Invalid,
    DeriveFailed,
}

/// The problem that a refused write ends in.
pub open spec fn write_problem(err: BodyWriteError) -> error::ApiErrorView {
    match err {
        BodyWriteError::Rejected => error::api_problem(ProblemCode::NotFound),
        BodyWriteError::Unavailable => collab_missing(),
        BodyWriteError::Conflict => error::coded_problem(
            409,
            "document_version_mismatch"@,
            "document version mismatch"@,
        ),
        BodyWriteError::TooLarge => documents::body_too_large(),
        BodyWriteError::Invalid => body_invalid(),
        BodyWriteError::DeriveFailed => error::api_problem(ProblemCode::Internal),
    }
}

pub fn map_body_write(err: BodyWriteError) -> (r: ApiError)
    ensures
        r@ == write_problem(err),
{
    match err {
        BodyWriteError::Rejected => ApiError::app(ProblemCode::NotFound),
        BodyWriteError::Unavailable => collab_unavailable(),
        BodyWriteError::Conflict => ApiError::coded(
            409,
            "document_version_mismatch",
            "document version mismatch",
        ),
        BodyWriteError::TooLarge => too_large(),
        BodyWriteError::Invalid => invalid_body(),
        BodyWriteError::DeriveFailed => ApiError::app(ProblemCode::Internal),
    }
}

/// Whether a body is asked for as Markdown.
pub fn parse_body_format(format: Option<&str>) -> (r: Result<bool, ApiError>)
    ensures
        match format {
            None => r == Ok::<_, ApiError>(false),
            Some(f) => if f@ == "md"@ {
                r == Ok::<_, ApiError>(true)
            } else {
                error::api_refused(r, ProblemCode::InvalidInput)
            },
        },
{
    match format {
        None => Ok(false),
        Some(f) => if same(f, "md") {
            Ok(true)
        } else {
            Err(ApiError::app(ProblemCode::InvalidInput))
        },
    }
}

/// A body as Markdown.
#[derive(Debug)]
pub struct BodyMdResponse {
    pub content_md: String,
    pub version: i64,
}

/// The answer with a body as Markdown.
pub fn markdown_reply(converted: Result<String, ConvertError>, version: i64) -> (r: Result<
    BodyMdResponse,
    ApiError,
>)
    ensures
        match converted {
            Err(err) => r matches Err(e) && e@ == convert_problem(err),
            Ok(md) => r == Ok::<_, ApiError>(BodyMdResponse { content_md: md, version }),
        },
{
    match converted {
        Err(err) => Err(map_convert(err)),
        Ok(content_md) => Ok(BodyMdResponse { content_md, version }),
    }
}

/// A body that is written.
#[derive(Debug)]
pub enum BodyInput {
    Json(Json),
    Markdown(String),
}

/// The contents of a `BodyInput`.
pub enum BodyInputView {
    Json(JsonView),
    Markdown(Seq<char>),
}

impl View for BodyInput {
    type V = BodyInputView;

    open spec fn view(&self) -> BodyInputView {
        match self {
            BodyInput::Json(j) => BodyInputView::Json(j@),
            BodyInput::Markdown(s) => BodyInputView::Markdown(s@),
        }
    }
}

/// The body that an object with exactly one member, `contentJson` or `contentMd`, writes.
pub open spec fn body_of(value: Option<JsonView>) -> Option<BodyInputView> {
    match value {
        Some(JsonView::Object(m)) => if m.len() != 1 {
            None
        } else if m[0].0 == "contentJson"@ {
            Some(BodyInputView::Json(m[0].1))
        } else if m[0].0 == "contentMd"@ {
            match m[0].1 {
                JsonView::Text(s) => Some(BodyInputView::Markdown(s)),
                _ => None,
            }
        } else {
            None
        },
        _ => None,
    }
}

/// Reads a body from a JSON value.
pub fn body_input(value: Option<Json>) -> (r: Result<BodyInput, ApiError>)
    ensures
        match r {
            Ok(input) => body_of(json::json_view(value)) == Some(input@),
            Err(e) => body_of(json::json_view(value)) is None && e@ == error::api_problem(
                ProblemCode::InvalidInput,
            ),
        },
{
    let mut members = match value {
        Some(Json::Object(members)) => members,
        _ => {
            return Err(ApiError::app(ProblemCode::InvalidInput));
        },
    };
    proof {
        json::lemma_object_view(members);
        reveal_strlit("contentJson");
        reveal_strlit("contentMd");
        assert("contentJson"@.len() != "contentMd"@.len());
    }
    if members.len() != 1 {
        return Err(ApiError::app(ProblemCode::InvalidInput));
    }
    let ghost m = json::members_view(members@);
    assert(m[0] == (members@[0].0@, members@[0].1@));
    let (name, content) = members.remove(0);
    if same(name.as_str(), "contentJson") {
        return Ok(BodyInput::Json(content));
    }
    if same(name.as_str(), "contentMd") {
        match content {
            Json::Text(md) => Ok(BodyInput::Markdown(md)),
            _ => Err(ApiError::app(ProblemCode::InvalidInput)),
        }
    } else {
        Err(ApiError::app(ProblemCode::InvalidInput))
    }
}

/// Reads a body from a request.
pub fn parse_body_input(bytes: &[u8]) -> (r: Result<BodyInput, ApiError>)
    ensures
        match r {
            Ok(input) => body_of(json::parsed_json(bytes@)) == Some(input@),
            Err(e) => body_of(json::parsed_json(bytes@)) is None && e@ == error::api_problem(
                ProblemCode::InvalidInput,
            ),
        },
{
    body_input(parse_json(bytes))
}

/// A Markdown text is not longer than documents may be, in bytes.
pub fn check_markdown_size(md: &str, max_bytes: usize) -> (r: Result<(), ApiError>)
    ensures
        r is Ok <==> vstd::utf8::encode_utf8(md@).len() <= max_bytes,
        r matches Err(e) ==> e@ == documents::body_too_large(),
{
    if md.as_bytes().len() > max_bytes {
        Err(too_large())
    } else {
        Ok(())
    }
}

/// The contents that a written body stands for: a Markdown text is converted, and either has to
/// give a body.
pub fn resolve_body_json<T>(
    converted: Result<T, ConvertError>,
    derived: Result<(), DerivedBodyError>,
) -> (r: Result<T, ApiError>)
    ensures
        match (converted, derived) {
            (Err(err), _) => r matches Err(e) && e@ == convert_problem(err),
            (Ok(_), Err(err)) => r matches Err(e) && e@ == derived_problem(err),
            (Ok(t), Ok(_)) => r == Ok::<T, ApiError>(t),
        },
{
    match converted {
        Err(err) => Err(map_convert(err)),
        Ok(t) => match derived {
            Err(err) => Err(map_derived(err)),
            Ok(_) => Ok(t),
        },
    }
}

/// What became of an exchange with the live document.
#[derive(Debug)]
pub enum Live<T> {
    /// There are no live documents here.
    NoHub,
    TimedOut,
    Failed(BodyWriteError),
    Done(T),
}

/// The problem that an exchange with the live document ends in, if it does.
pub open spec fn live_problem<T>(outcome: Live<T>) -> Option<error::ApiErrorView> {
    match outcome {
        Live::NoHub => Some(collab_missing()),
        Live::TimedOut => Some(error::api_problem(ProblemCode::CollabTimeoutRetry)),
        Live::Failed(err) => Some(write_problem(err)),
        Live::Done(_) => None,
    }
}

/// The outcome of an exchange with the live document.
pub fn live_result<T>(outcome: Live<T>) -> (r: Result<T, ApiError>)
    ensures
        match r {
            Ok(t) => outcome == Live::Done(t),
            Err(e) => live_problem(outcome) == Some(e@),
        },
{
    match outcome {
        Live::NoHub => Err(collab_unavailable()),
        Live::TimedOut => Err(ApiError::app(ProblemCode::CollabTimeoutRetry)),
        Live::Failed(err) => Err(map_body_write(err)),
        Live::Done(t) => Ok(t),
    }
}

/// A request to write a body as far as it can be judged before its caller is known.
pub fn put_body_entry(origin: Option<&[u8]>, public_origin: &str, bytes: &[u8]) -> (r: Result<
    BodyInput,
    ApiError,
>)
    ensures
        if !guard::origin_allowed(origin, public_origin@) {
            error::api_refused(r, ProblemCode::OriginMismatch)
        } else {
            match body_of(json::parsed_json(bytes@)) {
                None => error::api_refused(r, ProblemCode::InvalidInput),
                Some(v) => r matches Ok(input) && input@ == v,
            }
        },
{
    if let Err(e) = check_origin(origin, public_origin) {
        return Err(ApiError::App(e));
    }
    parse_body_input(bytes)
}

/// A block as a request writes it.
#[derive(Debug)]
pub struct PatchBlockInput {
    pub kind: String,
    pub attrs: Option<Vec<(String, Json)>>,
    pub content: Option<Vec<Json>>,
    pub marks: Option<Vec<Json>>,
    pub text: Option<String>,
}

/// A block of a document.
#[derive(Debug)]
pub struct BlockNode {
    pub kind: String,
    pub attrs: Option<Vec<(String, Json)>>,
    pub content: Option<Vec<Json>>,
    pub marks: Option<Vec<Json>>,
    pub text: Option<String>,
}

/// The id that a block names among its attributes, if it names one, is that of the block.
pub open spec fn own_id(attrs: Option<Vec<(String, Json)>>, block_id: Seq<char>) -> bool {
    match attrs {
        Some(a) => match json::find(json::members_view(a@), "id"@) {
            Some(id) => id == JsonView::Text(block_id),
            None => true,
        },
        None => true,
    }
}

/// The problem of a block that is written, if it has one.
pub open spec fn block_problem(input: Option<PatchBlockInput>, block_id: Seq<char>) -> Option<
    error::ApiErrorView,
> {
    match input {
        None => Some(error::api_problem(ProblemCode::InvalidInput)),
        Some(block) => if block.kind@.len() == 0 {
            Some(error::api_problem(ProblemCode::InvalidInput))
        } else if !own_id(block.attrs, block_id) {
            Some(body_invalid())
        } else {
            None
        },
    }
}

/// The block that an input writes.
pub open spec fn block_of(input: PatchBlockInput) -> BlockNode {
    BlockNode {
        kind: input.kind,
        attrs: input.attrs,
        content: input.content,
        marks: input.marks,
        text: input.text,
    }
}

/// Takes a block from a request. `input` is missing where the body of the request is no block.
pub fn parse_block_input(input: Option<PatchBlockInput>, block_id: &str) -> (r: Result<
    BlockNode,
    ApiError,
>)
    ensures
        match block_problem(input, block_id@) {
            Some(p) => r matches Err(e) && e@ == p,
            None => r == Ok::<_, ApiError>(block_of(input->0)),
        },
{
    let block = match input {
        None => {
            return Err(ApiError::app(ProblemCode::InvalidInput));
        },
        Some(block) => block,
    };
    if block.kind.as_str().unicode_len() == 0 {
        return Err(ApiError::app(ProblemCode::InvalidInput));
    }
    if let Some(attrs) = &block.attrs {
        if let Some(id) = member(attrs, "id") {
            let own: bool = match id {
                Json::Text(s) => same(s.as_str(), block_id),
                _ => false,
            };
            if !own {
                return Err(invalid_body());
            }
        }
    }
    Ok(
        BlockNode {
            kind: block.kind,
            attrs: block.attrs,
            content: block.content,
            marks: block.marks,
            text: block.text,
        },
    )
}

/// A request to change a block as far as it can be judged before its caller is known.
pub fn patch_block_entry(
    origin: Option<&[u8]>,
    public_origin: &str,
    input: Option<PatchBlockInput>,
    block_id: &str,
) -> (r: Result<BlockNode, ApiError>)
    ensures
        if !guard::origin_allowed(origin, public_origin@) {
            error::api_refused(r, ProblemCode::OriginMismatch)
        } else {
            match block_problem(input, block_id@) {
                Some(p) => r matches Err(e) && e@ == p,
                None => r == Ok::<_, ApiError>(block_of(input->0)),
            }
        },
{
    if let Err(e) = check_origin(origin, public_origin) {
        return Err(ApiError::App(e));
    }
    parse_block_input(input, block_id)
}

/// Where a change of a block stands.
#[derive(Clone, Copy, Debug, PartialEq, Eq, Structural)]
pub struct BlockPatch {
    /// The attempt that is made, from one on.
    pub attempt: usize,
    /// The last edit of the live document that the attempt knows of.
    pub tail: Option<i64>,
}

/// What comes behind a write of a block.
#[derive(Clone, Copy, Debug, PartialEq, Eq, Structural)]
pub enum BlockNext {
    Written,
    /// Another edit came between: the live document is read again.
    Again,
}

impl BlockPatch {
    /// The attempts that are made stay within the limit.
    pub open spec fn wf(self) -> bool {
        1 <= self.attempt <= PATCH_BLOCK_ATTEMPTS
    }

    pub fn start() -> (r: Self)
        ensures
            r == (BlockPatch { attempt: 1, tail: None }),
            r.wf(),
    {
        BlockPatch { attempt: 1, tail: None }
    }

    /// Takes the live document: `read` is the last edit in it.
    pub fn read(&mut self, read: Live<i64>) -> (r: Result<(), ApiError>)
        requires
            old(self).wf(),
        ensures
            final(self).wf(),
            match read {
                Live::Done(tail) => r is Ok && *final(self) == (BlockPatch {
                    tail: Some(tail),
                    ..*old(self)
                }),
                _ => *final(self) == *old(self) && (r matches Err(e) && live_problem(read) == Some(
                    e@,
                )),
            },
    {
        match live_result(read) {
            Ok(tail) => {
                self.tail = Some(tail);
                Ok(())
            },
            Err(e) => Err(e),
        }
    }

    /// What becomes of the contents with the block in its place: the last edit that the write may
    /// come behind. `found` is whether the document has the block, `seeded` what the contents were
    /// made into.
    pub fn patched(
        &self,
        found: bool,
        derived: Result<(), DerivedBodyError>,
        seeded: Result<(), ApiError>,
    ) -> (r: Result<i64, ApiError>)
        requires
            self.tail is Some,
        ensures
            match (found, derived, seeded) {
                (false, _, _) => error::api_refused(r, ProblemCode::NotFound),
                (true, Err(err), _) => r matches Err(e) && e@ == derived_problem(err),
                (true, Ok(_), Err(err)) => r == Err::<i64, _>(err),
                (true, Ok(_), Ok(_)) => r matches Ok(tail) && self.tail == Some(tail),
            },
    {
        if !found {
            return Err(ApiError::app(ProblemCode::NotFound));
        }
        match derived {
            Err(err) => Err(map_derived(err)),
            Ok(_) => match seeded {
                Err(err) => Err(err),
                Ok(_) => Ok(self.tail.unwrap()),
            },
        }
    }

    /// Takes what became of the write behind the last edit that was read. Where another edit came
    /// between, the live document is read again, as long as attempts are left.
    pub fn wrote(&mut self, outcome: Live<()>) -> (r: Result<BlockNext, ApiError>)
        requires
            old(self).wf(),
            old(self).tail is Some,
        ensures
            final(self).wf(),
            match outcome {
                Live::Done(_) => r == Ok::<_, ApiError>(BlockNext::Written) && *final(self)
                    == *old(self),
                _ => if outcome == Live::<()>::Failed(BodyWriteError::Conflict) && old(
                    self,
                ).attempt < PATCH_BLOCK_ATTEMPTS {
                    r == Ok::<_, ApiError>(BlockNext::Again) && *final(self) == (BlockPatch {
                        attempt: (old(self).attempt + 1) as usize,
                        tail: None,
                    })
                } else {
                    *final(self) == *old(self) && (r matches Err(e) && live_problem(outcome)
                        == Some(e@))
                },
            },
    {
        match outcome {
            Live::Done(_) => Ok(BlockNext::Written),
            Live::Failed(BodyWriteError::Conflict) => {
                if self.attempt < PATCH_BLOCK_ATTEMPTS {
                    self.attempt = self.attempt + 1;
                    self.tail = None;
                    Ok(BlockNext::Again)
                } else {
                    Err(map_body_write(BodyWriteError::Conflict))
                }
            },
            Live::NoHub => Err(collab_unavailable()),
            Live::TimedOut => Err(ApiError::app(ProblemCode::CollabTimeoutRetry)),
            Live::Failed(err) => Err(map_body_write(err)),
        }
    }
}

/// The children of a document among the nodes of a tree.
pub open spec fn children_of(nodes: Seq<TreeNode>, parent: Uuid) -> Seq<TreeNode> {
    nodes.filter(|n: TreeNode| n.parent_id == Some(parent))
}

/// The answers about the children of a document, in the order of the tree.
pub fn children_response(nodes: &[TreeNode], parent: Uuid) -> (r: Vec<TreeNodeResponse>)
    ensures
        r@.len() == children_of(nodes@, parent).len(),
        forall|i: int|
            0 <= i < r@.len() ==> documents::answers_node(
                #[trigger] children_of(nodes@, parent)[i],
                r@[i],
            ),
{
    let mut out: Vec<TreeNodeResponse> = Vec::new();
    let mut i: usize = 0;
    let ghost keep = |n: TreeNode| n.parent_id == Some(parent);
    proof {
        reveal(Seq::filter);
        assert(nodes@.subrange(0, 0).filter(keep).len() == 0);
    }
    while i < nodes.len()
        invariant
            i <= nodes@.len(),
            keep == (|n: TreeNode| n.parent_id == Some(parent)),
            out@.len() == nodes@.subrange(0, i as int).filter(keep).len(),
            forall|j: int|
                0 <= j < out@.len() ==> documents::answers_node(
                    #[trigger] nodes@.subrange(0, i as int).filter(keep)[j],
                    out@[j],
                ),
        decreases nodes.len() - i,
    {
        let node = &nodes[i];
        proof {
            reveal(Seq::filter);
            let next = nodes@.subrange(0, i + 1);
            assert(next.drop_last() == nodes@.subrange(0, i as int));
            assert(next.last() == nodes@[i as int]);
        }
        let child: bool = match node.parent_id {
            Some(p) => p == parent,
            None => false,
        };
        if child {
            out.push(node_response(node));
        }
        i = i + 1;
    }
    assert(nodes@.subrange(0, i as int) == nodes@);
    out
}

/// A place that links to a document, as the store keeps it.
#[derive(Debug)]
pub struct Backlink {
    pub id: Uuid,
    pub kind: String,
    pub title: String,
    pub display_id: Option<String>,
}

/// Where a link comes from.
#[derive(Debug)]
pub struct BacklinkFromResponse {
    pub kind: String,
    pub id: String,
    pub title: String,
    pub display_id: Option<String>,
}

/// A place that links to a document as it is answered.
#[derive(Debug)]
pub struct BacklinkItemResponse {
    pub id: String,
    pub from: BacklinkFromResponse,
}

/// The answer about a place that links to a document.
pub open spec fn answers_backlink(b: Backlink, out: BacklinkItemResponse) -> bool {
    &&& out.id@ == ids::uuid_text(b.id.0)
    &&& out.from.id@ == ids::uuid_text(b.id.0)
    &&& out.from.kind@ == b.kind@
    &&& out.from.title@ == b.title@
    &&& error::text_view(out.from.display_id) == error::text_view(b.display_id)
}

/// The answers about the places that link to a document.
pub fn backlinks_response(links: &[Backlink]) -> (r: Vec<BacklinkItemResponse>)
    ensures
        r@.len() == links@.len(),
        forall|i: int| 0 <= i < links@.len() ==> answers_backlink(#[trigger] links@[i], r@[i]),
{
    let mut out: Vec<BacklinkItemResponse> = Vec::new();
    let mut i: usize = 0;
    while i < links.len()
        invariant
            i <= links@.len(),
            out@.len() == i,
            forall|j: int| 0 <= j < i ==> answers_backlink(#[trigger] links@[j], out@[j]),
        decreases links.len() - i,
    {
        let b = &links[i];
        out.push(
            BacklinkItemResponse {
                id: b.id.text(),
                from: BacklinkFromResponse {
                    kind: b.kind.clone(),
                    id: b.id.text(),
                    title: b.title.clone(),
                    display_id: copy_text(&b.display_id),
                },
            },
        );
        i = i + 1;
    }
    out
}

/// The body of a request to copy a document.
#[derive(Debug)]
pub struct DuplicateDocumentInput {
    pub title: Option<String>,
    pub include_children: Option<bool>,
}

/// Reads a request to copy a document. `body` is none where it cannot be read, and an empty one
/// asks for nothing; `title_ok` is whether the title, without white space around it, is one.
pub fn duplicate_input(body: Option<DuplicateDocumentInput>, title_ok: bool) -> (r: Result<
    (Option<String>, bool),
    ApiError,
>)
    ensures
        match body {
            None => error::api_refused(r, ProblemCode::InvalidInput),
            Some(b) => if b.title is Some && !title_ok {
                error::api_refused(r, ProblemCode::InvalidInput)
            } else {
                r matches Ok(input) && input.1 == (b.include_children == Some(true))
                    && match b.title {
                    Some(t) => input.0 matches Some(u) && u@ == text::trimmed(t@),
                    None => input.0 is None,
                }
            },
        },
{
    let body = match body {
        None => {
            return Err(ApiError::app(ProblemCode::InvalidInput));
        },
        Some(b) => b,
    };
    let title = match body.title {
        None => None,
        Some(t) => {
            if !title_ok {
                return Err(ApiError::app(ProblemCode::InvalidInput));
            }
            Some(trim(t.as_str()).to_owned())
        },
    };
    let include_children: bool = match body.include_children {
        Some(b) => b,
        None => false,
    };
    Ok((title, include_children))
}

/// How the contents of a document that is copied are had.
#[derive(Clone, Copy, Debug, PartialEq, Eq, Structural)]
pub enum CopySource {
    /// As they are stored.
    Stored,
    /// From the edits of its live document; an engine may be missing, or fail.
    Projected(bool),
    NoEngine,
}

/// Whether a document can be copied: its contents have to be had, and to give a body and a seed.
pub fn copy_prepared(
    source: CopySource,
    derived: Result<(), DerivedBodyError>,
    seeded: Result<(), ConvertError>,
) -> (r: Result<(), ApiError>)
    ensures
        if source == CopySource::NoEngine || source == CopySource::Projected(false) {
            r matches Err(e) && e@ == collab_missing()
        } else {
            match (derived, seeded) {
                (Err(err), _) => r matches Err(e) && e@ == derived_problem(err),
                (Ok(_), Err(err)) => r matches Err(e) && e@ == convert_problem(err),
                (Ok(_), Ok(_)) => r is Ok,
            }
        },
{
    match source {
        CopySource::NoEngine => {
            return Err(collab_unavailable());
        },
        CopySource::Projected(false) => {
            return Err(collab_unavailable());
        },
        _ => {},
    }
    match derived {
        Err(err) => Err(map_derived(err)),
        Ok(_) => match seeded {
            Err(err) => Err(map_convert(err)),
            Ok(_) => Ok(()),
        },
    }
}

/// Where a document lies that is asked for by its id alone.
pub fn located_document(found: Result<Option<(Uuid, Option<Uuid>)>, DbFailure>) -> (r: Result<
    (Uuid, DocumentScope),
    ApiError,
>)
    ensures
        match found {
            Err(_) => error::api_refused(r, ProblemCode::Internal),
            Ok(None) => error::api_refused(r, ProblemCode::NotFound),
            Ok(Some((workspace_id, project_id))) => r == Ok::<_, ApiError>(
                (
                    workspace_id,
                    match project_id {
                        None => DocumentScope::Wiki,
                        Some(p) => DocumentScope::Project(p),
                    },
                ),
            ),
        },
{
    match found {
        Err(_) => Err(ApiError::app(ProblemCode::Internal)),
        Ok(None) => Err(ApiError::app(ProblemCode::NotFound)),
        Ok(Some((workspace_id, None))) => Ok((workspace_id, DocumentScope::Wiki)),
        Ok(Some((workspace_id, Some(p)))) => Ok((workspace_id, DocumentScope::Project(p))),
    }
}

/// Where a change of a block stands behind some writes, as long as each was one too late.
pub open spec fn behind_conflicts(state: BlockPatch, conflicts: nat) -> Option<BlockPatch>
    decreases conflicts,
{
    if conflicts == 0 {
        Some(state)
    } else {
        match behind_conflicts(state, (conflicts - 1) as nat) {
            Some(s) => if s.attempt < PATCH_BLOCK_ATTEMPTS {
                Some(BlockPatch { attempt: (s.attempt + 1) as usize, tail: None })
            } else {
                None
            },
            None => None,
        }
    }
}

/// A change of a block is given up when it came too late as often as it is tried, and not before.
pub proof fn law_block_patch_gives_up(conflicts: nat)
    ensures
        behind_conflicts(BlockPatch { attempt: 1, tail: None }, conflicts) is Some <==> conflicts
            < PATCH_BLOCK_ATTEMPTS,
    decreases conflicts,
{
    lemma_attempts(conflicts);
}

proof fn lemma_attempts(conflicts: nat)
    ensures
        match behind_conflicts(BlockPatch { attempt: 1, tail: None }, conflicts) {
            Some(s) => conflicts < PATCH_BLOCK_ATTEMPTS && s.attempt == conflicts + 1,
            None => conflicts >= PATCH_BLOCK_ATTEMPTS,
        },
    decreases conflicts,
{
    if conflicts > 0 {
        lemma_attempts((conflicts - 1) as nat);
    }
}

/// The JSON value that writes a body.
pub open spec fn written_body(body: BodyInputView) -> JsonView {
    match body {
        BodyInputView::Json(v) => JsonView::Object(seq![("contentJson"@, v)]),
        BodyInputView::Markdown(s) => JsonView::Object(seq![("contentMd"@, JsonView::Text(s))]),
    }
}

/// A body is read as it was written: a JSON value is read as a body exactly where it is the one
/// that writes that body.
pub proof fn law_body_is_read_as_written(value: JsonView, body: BodyInputView)
    ensures
        body_of(Some(value)) == Some(body) <==> value == written_body(body),
{
    reveal_strlit("contentJson");
    reveal_strlit("contentMd");
    assert("contentJson"@.len() != "contentMd"@.len());
    if let JsonView::Object(m) = value {
        if m.len() == 1 {
            assert(m =~= seq![(m[0].0, m[0].1)]);
        }
        if let JsonView::Object(w) = written_body(body) {
            assert(m == w ==> m[0] == w[0]);
        }
    }
}

/// An object with the one member `contentJson` is read as that member's value, whatever it is;
/// two such objects with different values give different bodies.
pub proof fn law_json_content_is_kept(v: JsonView, w: JsonView)
    ensures
        body_of(Some(JsonView::Object(seq![("contentJson"@, v)]))) == Some(BodyInputView::Json(v)),
        v != w ==> body_of(Some(JsonView::Object(seq![("contentJson"@, v)]))) != body_of(
            Some(JsonView::Object(seq![("contentJson"@, w)])),
        ),
{
    law_body_is_read_as_written(written_body(BodyInputView::Json(v)), BodyInputView::Json(v));
    law_body_is_read_as_written(written_body(BodyInputView::Json(w)), BodyInputView::Json(w));
}

/// An object with the one member `contentMd` is read as that text, whatever it is; two such
/// objects with different texts give different bodies.
pub proof fn law_markdown_content_is_kept(s: Seq<char>, t: Seq<char>)
    ensures
        body_of(Some(JsonView::Object(seq![("contentMd"@, JsonView::Text(s))]))) == Some(
            BodyInputView::Markdown(s),
        ),
        s != t ==> body_of(Some(JsonView::Object(seq![("contentMd"@, JsonView::Text(s))])))
            != body_of(Some(JsonView::Object(seq![("contentMd"@, JsonView::Text(t))]))),
{
    let a = BodyInputView::Markdown(s);
    let b = BodyInputView::Markdown(t);
    law_body_is_read_as_written(written_body(a), a);
    law_body_is_read_as_written(written_body(b), b);
}

/// Each value of a backlink is answered under the name that it is kept by.
pub proof fn law_backlink_is_answered_as_kept(b: Backlink, out: BacklinkItemResponse)
    requires
        answers_backlink(b, out),
    ensures
        ids::uuid_of(out.id@) == Some(b.id.0),
        ids::uuid_of(out.from.id@) == Some(b.id.0),
        out.from.kind@ == b.kind@,
        out.from.title@ == b.title@,
        error::text_view(out.from.display_id) == error::text_view(b.display_id),
{
    ids::law_uuid_round_trip(b.id.0);
    ids::law_uuid_round_trip(b.id.0);
}

/// A body that a request writes is taken as it was written, and what writes none is refused.
pub proof fn law_body_is_taken_as_written(
    bytes: &[u8],
    value: JsonView,
    r: Result<BodyInput, ApiError>,
)
    requires
        json::parsed_json(bytes@) == Some(value),
        call_ensures(parse_body_input, (bytes,), r),
    ensures
        match r {
            Ok(input) => value == written_body(input@),
            Err(_) => forall|body: BodyInputView| value != #[trigger] written_body(body),
        },
{
    match r {
        Ok(input) => {
            law_body_is_read_as_written(value, input@);
        },
        Err(_) => {
            assert forall|body: BodyInputView| value != #[trigger] written_body(body) by {
                law_body_is_read_as_written(value, body);
            }
        },
    }
}

/// A block is handed on as it was given, part by part.
pub proof fn law_block_is_handed_on_as_given(input: PatchBlockInput)
    ensures
        block_of(input).kind == input.kind,
        block_of(input).attrs == input.attrs,
        block_of(input).content == input.content,
        block_of(input).marks == input.marks,
        block_of(input).text == input.text,
{
}

/// A block is accepted exactly where it says what it is and does not claim the id of another block.
pub proof fn law_block_keeps_its_id(block: PatchBlockInput, block_id: Seq<char>)
    ensures
        block_problem(Some(block), block_id) is None <==> block.kind@.len() > 0 && (
        block.attrs matches Some(attrs) ==> (json::find(json::members_view(attrs@), "id"@)
            matches Some(id) ==> id == JsonView::Text(block_id))),
{
}

/// The children of a node are the nodes that name it as their parent, in their order.
pub proof fn law_children_name_their_parent(nodes: Seq<TreeNode>, parent: Uuid)
    ensures
        forall|i: int|
            0 <= i < children_of(nodes, parent).len() ==> (#[trigger] children_of(
                nodes,
                parent,
            )[i]).parent_id == Some(parent) && nodes.contains(children_of(nodes, parent)[i]),
        forall|i: int|
            0 <= i < nodes.len() && (#[trigger] nodes[i]).parent_id == Some(parent) ==> children_of(
                nodes,
                parent,
            ).contains(nodes[i]),
{
    let pred = |n: TreeNode| n.parent_id == Some(parent);
    assert forall|i: int| 0 <= i < children_of(nodes, parent).len() implies (
    #[trigger] children_of(nodes, parent)[i]).parent_id == Some(parent) && nodes.contains(
        children_of(nodes, parent)[i],
    ) by {
        nodes.lemma_filter_pred(pred, i);
        nodes.lemma_filter_contains_rev(pred, nodes.filter(pred)[i]);
    }
    assert forall|i: int|
        0 <= i < nodes.len() && (#[trigger] nodes[i]).parent_id == Some(
            parent,
        ) implies children_of(nodes, parent).contains(nodes[i]) by {
        nodes.lemma_filter_contains(pred, i);
    }
}

/// A copy has the title that was asked for, trimmed, and takes what lies under the document along
/// exactly where that was asked for.
pub proof fn law_copy_is_made_as_asked(
    body: DuplicateDocumentInput,
    title_ok: bool,
    r: Result<(Option<String>, bool), ApiError>,
)
    requires
        call_ensures(duplicate_input, (Some(body), title_ok), r),
    ensures
        r is Ok <==> body.title is None || title_ok,
        r matches Ok(input) ==> {
            &&& input.1 <==> body.include_children == Some(true)
            &&& input.0 is Some <==> body.title is Some
            &&& input.0 matches Some(t) ==> t@ == text::trimmed(body.title->0@)
        },
{
}

/// A block that was written is not written again; one that another edit came before is tried again
/// as long as attempts are left, from what the document is then; any other failure ends it.
pub proof fn law_block_is_tried_again_behind_other_edits(
    patch: &mut BlockPatch,
    outcome: Live<()>,
    r: Result<BlockNext, ApiError>,
)
    requires
        patch.wf(),
        patch.tail is Some,
        call_ensures(BlockPatch::wrote, (patch, outcome), r),
    ensures
        r == Ok::<_, ApiError>(BlockNext::Written) <==> outcome is Done,
        r == Ok::<_, ApiError>(BlockNext::Again) <==> outcome == Live::<()>::Failed(
            BodyWriteError::Conflict,
        ) && old(patch).attempt < PATCH_BLOCK_ATTEMPTS,
        r == Ok::<_, ApiError>(BlockNext::Again) ==> final(patch).attempt == old(patch).attempt + 1
            && final(patch).tail is None,
        r != Ok::<_, ApiError>(BlockNext::Again) ==> *final(patch) == *old(patch),
{
}

/// What one user is told by this limit does not depend on the requests of another: `revision_write_limit`
/// answers `b` alike behind a request of `a` and without it.
pub proof fn law_revision_write_limit_is_one_for_each_user(
    first: &mut RateLimiter,
    second: &mut RateLimiter,
    alone: &mut RateLimiter,
    a: Uuid,
    b: Uuid,
    now: u64,
    later: u64,
    told_a: Result<(), AppError>,
    told_b: Result<(), AppError>,
    told_alone: Result<(), AppError>,
)
    requires
        first.wf(),
        second.wf(),
        alone.wf(),
        a != b,
        old(first)@.dom().len() < rate_limit::MAX_KEYS,
        old(second)@ == final(first)@,
        old(alone)@ == old(first)@,
        call_ensures(revision_write_limit, (first, a, now), told_a),
        call_ensures(revision_write_limit, (second, b, later), told_b),
        call_ensures(revision_write_limit, (alone, b, later), told_alone),
    ensures
        told_b is Ok <==> told_alone is Ok,
        error::told(told_b) == error::told(told_alone),
{
    ids::law_uuid_texts_are_apart(a.0, b.0);
    rate_limit::lemma_keys_apart("revision-write:"@, ids::uuid_text(a.0), ids::uuid_text(b.0));
    rate_limit::lemma_other_keys_stay(
        old(first)@,
        final(first)@,
        "revision-write:"@ + ids::uuid_text(a.0),
        REVISION_WRITE_LIMIT,
        REVISION_WRITE_WINDOW,
        now,
        "revision-write:"@ + ids::uuid_text(b.0),
    );
}

/// A document that has a project belongs to it, and one that has none to the wiki; what is not there is
/// told as missing.
pub proof fn law_document_belongs_to_its_project(
    found: Option<(Uuid, Option<Uuid>)>,
    r: Result<(Uuid, DocumentScope), ApiError>,
)
    requires
        call_ensures(located_document, (Ok(found),), r),
    ensures
        r is Ok <==> found is Some,
        r matches Ok((workspace_id, scope)) ==> {
            let (w, p) = found->0;
            &&& workspace_id == w
            &&& scope is Wiki <==> p is None
            &&& p is Some ==> scope == DocumentScope::Project(p->0)
        },
{
}

} // verus!
