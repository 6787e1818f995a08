//! Search in a workspace, and in all that a user may see.

use vstd::prelude::*;
use vstd::string::*;
use crate::answer;
use crate::answer::{Answer, answer_all};
use crate::authz;
use crate::authz::{ParentKinds, RequestAuth, allowed_parent_kinds};
use crate::error;
use crate::error::{ApiError, ApiErrorView, AppError, DbFailure, ProblemCode};
use crate::ids;
use crate::ids::{Uuid, text_of};
use crate::rate_limit;
use crate::rate_limit::{RateLimiter, charge_both};
use crate::routes::attachments;
use crate::routes::attachments::read_length;
use crate::routes::documents::copy_text;
use crate::store::ApiRefusal;
use crate::text;
use crate::text::{join2, same, trim};
use crate::time;
use crate::time::Timestamp;

verus! {

/// Searches that one address, and one user, may make within a minute.
pub const SEARCH_IP_LIMIT: u32 = 120;

pub const SEARCH_USER_LIMIT: u32 = 60;

pub const SEARCH_WINDOW: u64 = 60_000_000_000;

/// The most characters of what is searched for.
pub const SEARCH_TEXT_MAX: usize = 200;

/// The most bytes of a cursor.
pub const SEARCH_CURSOR_MAX: usize = 1024;

/// The hits of a page where a query names no number, and the most of a page.
pub const SEARCH_PAGE: u32 = 20;

pub const SEARCH_PAGE_MAX: u32 = 50;

/// The query of a search in a workspace.
#[derive(Debug)]
pub struct WorkspaceSearchQuery {
    pub q: String,
    pub kind: Option<String>,
    pub tag: Option<String>,
    pub project_id: Option<String>,
    pub cursor: Option<String>,
    pub limit: Option<String>,
    pub mode: Option<String>,
}

/// The query of a search in all that a user may see. It stays by words, whatever its mode.
#[derive(Debug)]
pub struct GlobalSearchQuery {
    pub q: String,
    pub kind: Option<String>,
    pub tag: Option<String>,
    pub cursor: Option<String>,
    pub limit: Option<String>,
    pub mode: Option<String>,
}

/// What the queries of both searches hold.
struct SearchTerms<'a> {
    q: &'a str,
    kind: Option<&'a str>,
    tag: Option<&'a str>,
    project_id: Option<&'a str>,
    cursor: Option<&'a str>,
    limit: Option<&'a str>,
    mode: Option<&'a str>,
}

/// What the queries of both searches hold: what is searched for, of what kind, by what tag, in
/// which project, where from, how many hits, and how. A search in all that a user may see names no
/// project.
#[verifier::ext_equal]
pub struct TermsView {
    pub q: Seq<char>,
    pub kind: Option<Seq<char>>,
    pub tag: Option<Seq<char>>,
    pub project_id: Option<Seq<char>>,
    pub cursor: Option<Seq<char>>,
    pub limit: Option<Seq<char>>,
    pub mode: Option<Seq<char>>,
}

impl<'a> View for SearchTerms<'a> {
    type V = TermsView;

    closed spec fn view(&self) -> TermsView {
        TermsView {
            q: self.q@,
            kind: error::str_view(self.kind),
            tag: error::str_view(self.tag),
            project_id: error::str_view(self.project_id),
            cursor: error::str_view(self.cursor),
            limit: error::str_view(self.limit),
            mode: error::str_view(self.mode),
        }
    }
}

impl View for WorkspaceSearchQuery {
    type V = TermsView;

    open spec fn view(&self) -> TermsView {
        TermsView {
            q: self.q@,
            kind: error::text_view(self.kind),
            tag: error::text_view(self.tag),
            project_id: error::text_view(self.project_id),
            cursor: error::text_view(self.cursor),
            limit: error::text_view(self.limit),
            mode: error::text_view(self.mode),
        }
    }
}

impl View for GlobalSearchQuery {
    type V = TermsView;

    open spec fn view(&self) -> TermsView {
        TermsView {
            q: self.q@,
            kind: error::text_view(self.kind),
            tag: error::text_view(self.tag),
            project_id: None,
            cursor: error::text_view(self.cursor),
            limit: error::text_view(self.limit),
            mode: error::text_view(self.mode),
        }
    }
}

/// What is searched for holds something, and not too much.
pub open spec fn terms_fit(q: Seq<char>) -> bool {
    text::trimmed(q).len() > 0 && q.len() <= SEARCH_TEXT_MAX
}

/// A mode that there is.
pub open spec fn mode_fits(mode: Option<Seq<char>>) -> bool {
    mode matches Some(m) ==> m == "lexical"@ || m == "hybrid"@
}

/// The number of hits that a query asks for, where it is one.
pub open spec fn hits_asked(limit: Option<Seq<char>>) -> Option<u32> {
    match limit {
        None => Some(SEARCH_PAGE),
        Some(s) => match attachments::length_of(s) {
            Some(n) => if 1 <= n <= SEARCH_PAGE_MAX {
                Some(n as u32)
            } else {
                None
            },
            None => None,
        },
    }
}

/// A cursor is longer than any that was handed out.
pub open spec fn cursor_too_long(cursor: Option<Seq<char>>) -> bool {
    cursor matches Some(c) && vstd::utf8::encode_utf8(c).len() > SEARCH_CURSOR_MAX
}

/// A cursor that was not handed out.
pub open spec fn bad_cursor() -> ApiErrorView {
    ApiErrorView::App(error::problem_detail(400, ProblemCode::InvalidInput, "invalid_cursor"@))
}

/// The project that a query names, where it names one as an id.
pub open spec fn project_asked(terms: TermsView) -> Option<u128> {
    match terms.project_id {
        Some(s) => ids::uuid_of(s),
        None => None,
    }
}

/// The problem of a search, if it has one: what is searched for, then the cursor, then the kind,
/// the mode and the project, then a tag, by which nothing is searched, then the number of hits.
/// `kind_known` is whether the kind is known.
pub open spec fn search_problem(terms: TermsView, kind_known: bool) -> Option<ApiErrorView> {
    if !terms_fit(terms.q) {
        Some(error::api_problem(ProblemCode::InvalidInput))
    } else if cursor_too_long(terms.cursor) {
        Some(bad_cursor())
    } else if !kind_known || !mode_fits(terms.mode) || (terms.project_id is Some && project_asked(
        terms,
    ) is None) || terms.tag is Some || hits_asked(terms.limit) is None {
        Some(error::api_problem(ProblemCode::InvalidInput))
    } else {
        None
    }
}

/// A cursor that was not handed out.
pub fn invalid_cursor() -> (r: ApiError)
    ensures
        r@ == bad_cursor(),
{
    ApiError::App(AppError::detail(400, ProblemCode::InvalidInput, "invalid_cursor"))
}

/// The search cannot be reached.
pub open spec fn search_missing() -> ApiErrorView {
    error::coded_problem(503, "search_unavailable"@, "search unavailable"@)
}

pub fn search_unavailable() -> (r: ApiError)
    ensures
        r@ == search_missing(),
{
    ApiError::coded(503, "search_unavailable", "search unavailable")
}

/// Reads what the queries of both searches hold: the number of hits, whether the search is by
/// meaning too, and the project.
fn search_terms(terms: SearchTerms, kind_known: bool) -> (r: Result<
    (u32, bool, Option<Uuid>),
    ApiError,
>)
    ensures
        match r {
            Err(e) => search_problem(terms@, kind_known) == Some(e@),
            Ok(asked) => {
                &&& search_problem(terms@, kind_known) is None
                &&& hits_asked(terms@.limit) == Some(asked.0)
                &&& asked.1 == (terms@.mode == Some("hybrid"@))
                &&& asked.2 == ids::some_uuid(project_asked(terms@))
            },
        },
{
    if trim(terms.q).unicode_len() == 0 || terms.q.unicode_len() > SEARCH_TEXT_MAX {
        return Err(ApiError::app(ProblemCode::InvalidInput));
    }
    if let Some(c) = terms.cursor {
        if c.as_bytes().len() > SEARCH_CURSOR_MAX {
            return Err(invalid_cursor());
        }
    }
    if !kind_known {
        return Err(ApiError::app(ProblemCode::InvalidInput));
    }
    let mut hybrid: bool = false;
    if let Some(m) = terms.mode {
        hybrid = same(m, "hybrid");
        if !same(m, "lexical") && !hybrid {
            return Err(ApiError::app(ProblemCode::InvalidInput));
        }
    }
    let project_id = match terms.project_id {
        Some(s) => match Uuid::parse_str(s) {
            None => {
                return Err(ApiError::app(ProblemCode::InvalidInput));
            },
            Some(id) => Some(id),
        },
        None => None,
    };
    if terms.tag.is_some() {
        return Err(ApiError::app(ProblemCode::InvalidInput));
    }
    let limit: u32 = match terms.limit {
        None => SEARCH_PAGE,
        Some(s) => match read_length(s) {
            Some(n) => if n >= 1 && n <= SEARCH_PAGE_MAX as u64 {
                n as u32
            } else {
                return Err(ApiError::app(ProblemCode::InvalidInput));
            },
            None => {
                return Err(ApiError::app(ProblemCode::InvalidInput));
            },
        },
    };
    Ok((limit, hybrid, project_id))
}

/// A text that there may be, borrowed.
fn borrow_text(o: &Option<String>) -> (r: Option<&str>)
    ensures
        error::str_view(r) == error::text_view(*o),
{
    match o {
        Some(s) => Some(s.as_str()),
        None => None,
    }
}

/// The name of the kind that a query asks for.
pub fn kind_name(kind: &Option<String>) -> (r: &str)
    ensures
        r@ == match *kind {
            Some(k) => k@,
            None => "all"@,
        },
{
    match kind {
        Some(k) => k.as_str(),
        None => "all",
    }
}

/// What a search in a workspace asks for.
#[derive(Debug)]
pub struct WorkspaceSearch<K> {
    pub kind: K,
    pub project_id: Option<Uuid>,
    pub limit: u32,
    pub hybrid: bool,
}

/// Reads the query of a search in a workspace. `kind` is what the name of its kind stands for, if
/// anything.
pub fn workspace_search_input<K>(query: &WorkspaceSearchQuery, kind: Option<K>) -> (r: Result<
    WorkspaceSearch<K>,
    ApiError,
>)
    ensures
        match r {
            Err(e) => search_problem(query@, kind is Some) == Some(e@),
            Ok(s) => {
                &&& search_problem(query@, kind is Some) is None
                &&& kind == Some(s.kind)
                &&& s.project_id == ids::some_uuid(project_asked(query@))
                &&& hits_asked(query@.limit) == Some(s.limit)
                &&& s.hybrid == (query@.mode == Some("hybrid"@))
            },
        },
{
    let terms = SearchTerms {
        q: query.q.as_str(),
        kind: borrow_text(&query.kind),
        tag: borrow_text(&query.tag),
        project_id: borrow_text(&query.project_id),
        cursor: borrow_text(&query.cursor),
        limit: borrow_text(&query.limit),
        mode: borrow_text(&query.mode),
    };
    assert(terms@ == query@);
    match search_terms(terms, kind.is_some()) {
        Err(e) => Err(e),
        Ok(asked) => match kind {
            Some(kind) => Ok(
                WorkspaceSearch { kind, project_id: asked.2, limit: asked.0, hybrid: asked.1 },
            ),
            None => Err(ApiError::app(ProblemCode::InvalidInput)),
        },
    }
}

/// Reads the query of a search in all that a user may see: the kind and the number of hits.
pub fn global_search_input<K>(query: &GlobalSearchQuery, kind: Option<K>) -> (r: Result<
    (K, u32),
    ApiError,
>)
    ensures
        match r {
            Err(e) => search_problem(query@, kind is Some) == Some(e@),
            Ok(s) => {
                &&& search_problem(query@, kind is Some) is None
                &&& kind == Some(s.0)
                &&& hits_asked(query@.limit) == Some(s.1)
            },
        },
{
    let terms = SearchTerms {
        q: query.q.as_str(),
        kind: borrow_text(&query.kind),
        tag: borrow_text(&query.tag),
        project_id: None,
        cursor: borrow_text(&query.cursor),
        limit: borrow_text(&query.limit),
        mode: borrow_text(&query.mode),
    };
    assert(terms@ == query@);
    match search_terms(terms, kind.is_some()) {
        Err(e) => Err(e),
        Ok(asked) => match kind {
            Some(kind) => Ok((kind, asked.0)),
            None => Err(ApiError::app(ProblemCode::InvalidInput)),
        },
    }
}

/// What a search in a workspace is for.
#[derive(Debug)]
pub struct WorkspaceSearchRequest<K> {
    pub workspace_id: Uuid,
    pub actor_user_id: Uuid,
    pub session_id: Uuid,
    pub q: String,
    pub kind: K,
    pub project_id: Option<Uuid>,
    pub cursor: Option<String>,
    pub limit: u32,
    pub hybrid: bool,
    /// The kinds that it is narrowed to.
    pub allowed_kinds: Option<ParentKinds>,
}

/// What a search in a workspace is for: the text as it was written, and what its asker may read.
pub fn workspace_request<K>(
    auth: &RequestAuth,
    workspace_id: Uuid,
    query: WorkspaceSearchQuery,
    asked: WorkspaceSearch<K>,
) -> (r: WorkspaceSearchRequest<K>)
    ensures
        r == (WorkspaceSearchRequest {
            workspace_id,
            actor_user_id: auth.user_id,
            session_id: auth.credential_id,
            q: query.q,
            kind: asked.kind,
            project_id: asked.project_id,
            cursor: query.cursor,
            limit: asked.limit,
            hybrid: asked.hybrid,
            allowed_kinds: authz::parent_kinds(*auth),
        }),
{
    WorkspaceSearchRequest {
        workspace_id,
        actor_user_id: auth.user_id,
        session_id: auth.credential_id,
        q: query.q,
        kind: asked.kind,
        project_id: asked.project_id,
        cursor: query.cursor,
        limit: asked.limit,
        hybrid: asked.hybrid,
        allowed_kinds: allowed_parent_kinds(auth),
    }
}

/// What a search in all workspaces is for.
#[derive(Debug)]
pub struct GlobalSearchRequest<K> {
    pub actor_user_id: Uuid,
    pub session_id: Uuid,
    pub q: String,
    pub kind: K,
    pub cursor: Option<String>,
    pub limit: u32,
    /// The kinds that it is narrowed to.
    pub allowed_kinds: Option<ParentKinds>,
    /// The workspace that it is narrowed to.
    pub token_workspace_id: Option<Uuid>,
}

/// What a search in all workspaces is for: that of a token stays in its workspace.
pub fn global_request<K>(auth: &RequestAuth, query: GlobalSearchQuery, asked: (K, u32)) -> (r:
    GlobalSearchRequest<K>)
    ensures
        r == (GlobalSearchRequest {
            actor_user_id: auth.user_id,
            session_id: auth.credential_id,
            q: query.q,
            kind: asked.0,
            cursor: query.cursor,
            limit: asked.1,
            allowed_kinds: authz::parent_kinds(*auth),
            token_workspace_id: auth.token_workspace_id,
        }),
{
    GlobalSearchRequest {
        actor_user_id: auth.user_id,
        session_id: auth.credential_id,
        q: query.q,
        kind: asked.0,
        cursor: query.cursor,
        limit: asked.1,
        allowed_kinds: allowed_parent_kinds(auth),
        token_workspace_id: auth.token_workspace_id,
    }
}

/// What became of a search; `done` is missing where there is no index.
pub fn search_answer(done: Option<Result<Result<SearchPage, SearchQueryError>, DbFailure>>) -> (r:
    Result<SearchListResponse, ApiError>)
    ensures
        match done {
            None => r matches Err(e) && e@ == search_missing(),
            Some(Err(_)) => error::api_refused(r, ProblemCode::Internal),
            Some(Ok(Err(err))) => r matches Err(e) && e@ == query_problem(err),
            Some(Ok(Ok(page))) => r matches Ok(out) && page.answered(&out),
        },
{
    match done {
        None => Err(search_unavailable()),
        Some(Err(_)) => Err(ApiError::app(ProblemCode::Internal)),
        Some(Ok(Err(err))) => Err(err.refusal()),
        Some(Ok(Ok(page))) => Ok(page.answer()),
    }
}

/// Charges a search to its address, then to its user.
pub fn search_limits(limiter: &mut RateLimiter, ip: &str, user_id: Uuid, now: u64) -> (r: Result<
    (),
    AppError,
>)
    requires
        old(limiter).wf(),
    ensures
        final(limiter).wf(),
        rate_limit::charged_twice(
            old(limiter)@,
            final(limiter)@,
            ("search-ip:"@ + ip@, SEARCH_IP_LIMIT),
            ("search-user:"@ + ids::uuid_text(user_id.0), SEARCH_USER_LIMIT),
            SEARCH_WINDOW,
            now,
            error::told(r),
        ),
{
    let id = user_id.text();
    let by_ip = join2("search-ip:", ip);
    let by_user = join2("search-user:", id.as_str());
    charge_both(
        limiter,
        by_ip.as_str(),
        SEARCH_IP_LIMIT,
        by_user.as_str(),
        SEARCH_USER_LIMIT,
        SEARCH_WINDOW,
        now,
    )
}

/// Why a search found nothing to answer.
#[derive(Clone, Copy, Debug, PartialEq, Eq, Structural)]
pub enum SearchQueryError {
    Forbidden,
    NotFound,
    InvalidCursor,
    MeiliUnavailable,
}

/// The problem that a search which was refused is told as.
pub open spec fn query_problem(err: SearchQueryError) -> ApiErrorView {
    match err {
        SearchQueryError::Forbidden => error::api_problem(ProblemCode::AuthenticationRequired),
        SearchQueryError::NotFound => error::api_problem(ProblemCode::NotFound),
        SearchQueryError::InvalidCursor => bad_cursor(),
        SearchQueryError::MeiliUnavailable => search_missing(),
    }
}

impl ApiRefusal for SearchQueryError {
    open spec fn problem(&self) -> ApiErrorView {
        query_problem(*self)
    }

    fn refusal(&self) -> (r: ApiError) {
        match self {
            SearchQueryError::Forbidden => ApiError::app(ProblemCode::AuthenticationRequired),
            SearchQueryError::NotFound => ApiError::app(ProblemCode::NotFound),
            SearchQueryError::InvalidCursor => invalid_cursor(),
            SearchQueryError::MeiliUnavailable => search_unavailable(),
        }
    }
}

/// How well a hit matches: the integer that stands at the place of the score in the order of all
/// floating-point numbers.
#[derive(Clone, Copy, Debug, PartialEq, Eq, Structural)]
pub struct Score(pub i64);

/// A piece of a text around a hit, and whether it is what was searched for.
#[derive(Debug)]
pub struct SearchSnippetPiece {
    pub text: String,
    pub matched: bool,
}

impl Answer for SearchSnippetPiece {
    type Out = SearchSnippetPiece;

    open spec fn answered(&self, out: &SearchSnippetPiece) -> bool {
        out.text@ == self.text@ && out.matched == self.matched
    }

    fn answer(&self) -> (r: SearchSnippetPiece) {
        SearchSnippetPiece { text: self.text.clone(), matched: self.matched }
    }
}

/// A hit, as the search finds it.
#[derive(Debug)]
pub struct SearchResultItem {
    pub kind: String,
    pub id: Uuid,
    pub title: String,
    pub display_id: Option<String>,
    pub extract_status: Option<String>,
    pub chunk_no: Option<i32>,
    pub snippet: Option<Vec<SearchSnippetPiece>>,
    pub project_id: Option<Uuid>,
    pub document_id: Option<Uuid>,
    pub task_id: Option<Uuid>,
    pub score: Score,
    pub updated_at: Timestamp,
    pub workspace_id: Uuid,
}

/// A hit as it is answered.
#[derive(Debug)]
pub struct SearchItemOutput {
    pub kind: String,
    pub id: String,
    pub title: String,
    pub display_id: Option<String>,
    pub extract_status: Option<String>,
    pub chunk_no: Option<i32>,
    pub snippet: Option<Vec<SearchSnippetPiece>>,
    pub project_id: Option<String>,
    pub document_id: Option<String>,
    pub task_id: Option<String>,
    pub score: Score,
    pub updated_at: String,
    pub workspace_id: String,
}

/// The pieces around a hit are answered as they are.
pub open spec fn same_snippet(
    snippet: Option<Vec<SearchSnippetPiece>>,
    out: Option<Vec<SearchSnippetPiece>>,
) -> bool {
    match snippet {
        Some(pieces) => out matches Some(o) && answer::all_answered(pieces@, o@),
        None => out is None,
    }
}

impl Answer for SearchResultItem {
    type Out = SearchItemOutput;

    open spec fn answered(&self, out: &SearchItemOutput) -> bool {
        &&& out.kind@ == self.kind@
        &&& out.id@ == ids::uuid_text(self.id.0)
        &&& out.title@ == self.title@
        &&& error::text_view(out.display_id) == error::text_view(self.display_id)
        &&& error::text_view(out.extract_status) == error::text_view(self.extract_status)
        &&& out.chunk_no == self.chunk_no
        &&& same_snippet(self.snippet, out.snippet)
        &&& error::text_view(out.project_id) == ids::opt_text(self.project_id)
        &&& error::text_view(out.document_id) == ids::opt_text(self.document_id)
        &&& error::text_view(out.task_id) == ids::opt_text(self.task_id)
        &&& out.score == self.score
        &&& out.updated_at@ == time::rfc3339_text(self.updated_at@ as i64)
        &&& out.workspace_id@ == ids::uuid_text(self.workspace_id.0)
    }

    fn answer(&self) -> (r: SearchItemOutput) {
        SearchItemOutput {
            kind: self.kind.clone(),
            id: self.id.text(),
            title: self.title.clone(),
            display_id: copy_text(&self.display_id),
            extract_status: copy_text(&self.extract_status),
            chunk_no: self.chunk_no,
            snippet: match &self.snippet {
                Some(pieces) => Some(answer_all(pieces.as_slice())),
                None => None,
            },
            project_id: text_of(self.project_id),
            document_id: text_of(self.document_id),
            task_id: text_of(self.task_id),
            score: self.score,
            updated_at: self.updated_at.rfc3339(),
            workspace_id: self.workspace_id.text(),
        }
    }
}

/// A page of hits, as the search finds it.
#[derive(Debug)]
pub struct SearchPage {
    pub items: Vec<SearchResultItem>,
    pub next_cursor: Option<String>,
}

/// A page of hits as it is answered.
#[derive(Debug)]
pub struct SearchListResponse {
    pub items: Vec<SearchItemOutput>,
    pub next_cursor: Option<String>,
}

impl Answer for SearchPage {
    type Out = SearchListResponse;

    open spec fn answered(&self, out: &SearchListResponse) -> bool {
        answer::all_answered(self.items@, out.items@) && error::text_view(out.next_cursor)
            == error::text_view(self.next_cursor)
    }

    fn answer(&self) -> (r: SearchListResponse) {
        SearchListResponse {
            items: answer_all(self.items.as_slice()),
            next_cursor: copy_text(&self.next_cursor),
        }
    }
}

/// The number of hits that is asked for in decimal is the number that is given, from one up to the
/// most; another is refused, and without one there is a default.
pub proof fn law_asked_hits_are_given(n: nat)
    ensures
        hits_asked(Some(text::decimal(n))) == if 1 <= n <= SEARCH_PAGE_MAX {
            Some(n as u32)
        } else {
            None
        },
        hits_asked(None) == Some(SEARCH_PAGE),
{
    attachments::law_written_length_is_read_back(n);
}

/// A search is accepted exactly where it asks for something, in a way and for a kind that is known,
/// in a project that is named by an id or in none, for a number of hits that is given, without tags
/// and behind a cursor that is not too long.
pub proof fn law_search_is_accepted_where_it_can_be_made(terms: TermsView, kind_known: bool)
    ensures
        search_problem(terms, kind_known) is None <==> {
            &&& text::trimmed(terms.q).len() > 0
            &&& terms.q.len() <= SEARCH_TEXT_MAX
            &&& kind_known
            &&& terms.mode is None || terms.mode == Some("lexical"@) || terms.mode == Some(
                "hybrid"@,
            )
            &&& terms.project_id matches Some(p) ==> ids::uuid_of(p) is Some
            &&& terms.tag is None
            &&& hits_asked(terms.limit) is Some
            &&& terms.cursor matches Some(c) ==> vstd::utf8::encode_utf8(c).len()
                <= SEARCH_CURSOR_MAX
        },
{
}

/// Each value of a search result item is answered under the name that it is kept by.
pub proof fn law_search_result_item_is_answered_as_kept(
    row: SearchResultItem,
    out: SearchItemOutput,
)
    requires
        row.answered(&out),
    ensures
        out.kind@ == row.kind@,
        ids::uuid_of(out.id@) == Some(row.id.0),
        out.title@ == row.title@,
        error::text_view(out.display_id) == error::text_view(row.display_id),
        error::text_view(out.extract_status) == error::text_view(row.extract_status),
        out.chunk_no == row.chunk_no,
        same_snippet(row.snippet, out.snippet),
        match (row.project_id, out.project_id) {
            (Some(id), Some(s)) => ids::uuid_of(s@) == Some(id.0),
            (None, None) => true,
            _ => false,
        },
        match (row.document_id, out.document_id) {
            (Some(id), Some(s)) => ids::uuid_of(s@) == Some(id.0),
            (None, None) => true,
            _ => false,
        },
        match (row.task_id, out.task_id) {
            (Some(id), Some(s)) => ids::uuid_of(s@) == Some(id.0),
            (None, None) => true,
            _ => false,
        },
        out.score == row.score,
        out.updated_at@ == time::rfc3339_text(row.updated_at@ as i64),
        ids::uuid_of(out.workspace_id@) == Some(row.workspace_id.0),
{
    ids::law_uuid_round_trip(row.id.0);
    if let Some(id) = row.project_id {
        ids::law_uuid_round_trip(id.0);
    }
    if let Some(id) = row.document_id {
        ids::law_uuid_round_trip(id.0);
    }
    if let Some(id) = row.task_id {
        ids::law_uuid_round_trip(id.0);
    }
    ids::law_uuid_round_trip(row.workspace_id.0);
}

/// A search is made for the one who asks, with what was asked, and no wider than their token
/// allows.
pub proof fn law_search_is_made_for_its_asker<K>(
    auth: &RequestAuth,
    workspace_id: Uuid,
    query: WorkspaceSearchQuery,
    asked: WorkspaceSearch<K>,
    global: GlobalSearchQuery,
    kind: K,
    limit: u32,
    r: WorkspaceSearchRequest<K>,
    g: GlobalSearchRequest<K>,
)
    requires
        call_ensures(workspace_request::<K>, (auth, workspace_id, query, asked), r),
        call_ensures(global_request::<K>, (auth, global, (kind, limit)), g),
    ensures
        r.actor_user_id == auth.user_id && g.actor_user_id == auth.user_id,
        r.session_id == auth.credential_id && g.session_id == auth.credential_id,
        r.workspace_id == workspace_id,
        r.q == query.q && g.q == global.q,
        r.cursor == query.cursor && g.cursor == global.cursor,
        r.kind == asked.kind && g.kind == kind,
        r.limit == asked.limit && g.limit == limit,
        r.project_id == asked.project_id,
        r.hybrid == asked.hybrid,
        g.token_workspace_id == auth.token_workspace_id,
        auth.token_scopes is None <==> r.allowed_kinds is None,
        auth.token_scopes is None <==> g.allowed_kinds is None,
        auth.token_scopes matches Some(scopes) ==> r.allowed_kinds == g.allowed_kinds
            && r.allowed_kinds == Some(
            authz::ParentKinds {
                document: scopes@.contains(authz::ApiTokenScope::DocumentsRead),
                task: scopes@.contains(authz::ApiTokenScope::TasksRead),
            },
        ),
{
}

/// A search in a workspace is made with the kind, the project and the number of hits that were
/// asked for, and by meaning exactly where that was asked for.
pub proof fn law_search_is_made_as_asked<K>(
    query: &WorkspaceSearchQuery,
    kind: Option<K>,
    r: Result<WorkspaceSearch<K>, ApiError>,
)
    requires
        call_ensures(workspace_search_input::<K>, (query, kind), r),
        r is Ok,
    ensures
        kind == Some(r->Ok_0.kind),
        r->Ok_0.hybrid <==> query.mode is Some && query.mode->0@ == "hybrid"@,
        match (query.project_id, r->Ok_0.project_id) {
            (Some(s), Some(id)) => ids::uuid_of(s@) == Some(id.0),
            (None, None) => true,
            _ => false,
        },
        query.limit is None ==> r->Ok_0.limit == SEARCH_PAGE,
        query.limit is Some ==> attachments::length_of(query.limit->0@) == Some(
            r->Ok_0.limit as nat,
        ),
        1 <= r->Ok_0.limit <= SEARCH_PAGE_MAX,
        query.tag is None,
{
}

/// A search passes exactly where both its address and its user have asked for few enough of late.
pub proof fn law_search_limits_have_to_let_pass(
    limiter: &mut RateLimiter,
    ip: &str,
    user_id: Uuid,
    now: u64,
    r: Result<(), AppError>,
)
    requires
        limiter.wf(),
        old(limiter)@.dom().finite(),
        old(limiter)@.dom().len() < rate_limit::MAX_KEYS - 1,
        call_ensures(search_limits, (limiter, ip, user_id, now), r),
    ensures
        r is Ok <==> rate_limit::live(
            rate_limit::grants_of(old(limiter)@, "search-ip:"@ + ip@),
            now,
            SEARCH_WINDOW,
        ).len() < SEARCH_IP_LIMIT && rate_limit::live(
            rate_limit::grants_of(old(limiter)@, "search-user:"@ + ids::uuid_text(user_id.0)),
            now,
            SEARCH_WINDOW,
        ).len() < SEARCH_USER_LIMIT,
{
    reveal_strlit("search-ip:");
    reveal_strlit("search-user:");
    let first = "search-ip:"@ + ip@;
    let second = "search-user:"@ + ids::uuid_text(user_id.0);
    let at = 7int;
    assert(first[at] == "search-ip:"@[at] && second[at] == "search-user:"@[at]);
    assert(first != second);
}

} // verus!
