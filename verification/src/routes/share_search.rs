//! Search in what one who has a share link may see.

use vstd::prelude::*;
use vstd::string::*;
use crate::answer;
use crate::answer::answer_all;
use crate::error;
use crate::error::{AppError, ProblemCode};
use crate::header;
use crate::ids;
use crate::ids::{Uuid, text_of, texts_of};
use crate::json::JsonView;
use crate::problem;
use crate::problem::{CodedReply, coded_reply};
use crate::routes::search::{Score, SearchItemOutput, SearchListResponse, SearchSnippetPiece};
use crate::text;
use crate::text::{chars_of, same, trim, utf16_within, white};
use crate::time;
use crate::time::Timestamp;

verus! {

/// The most hits of an answer.
pub const SHARE_SEARCH_LIMIT: usize = 50;

/// The hits of a page of the index, and the most pages that are asked for.
pub const SHARE_MEILI_PAGE: u32 = 50;

pub const SHARE_MEILI_PAGES: usize = 8;

/// The documents that one part of the index is narrowed to at most.
pub const SHARE_DOC_ID_CHUNK: usize = 200;

/// The most UTF-16 code units of what is searched for, and the most characters that are used.
pub const SHARE_TEXT_MAX: usize = 200;

/// The query of a search behind a link.
#[derive(Debug)]
pub struct ShareSearchQuery {
    pub q: Option<String>,
}

/// What is searched for holds something, and not too much.
pub fn share_query(query: ShareSearchQuery) -> (r: Result<String, AppError>)
    ensures
        match query.q {
            Some(q) if 1 <= text::utf16_units(q@) <= SHARE_TEXT_MAX => r == Ok::<_, AppError>(q),
            _ => error::refused(r, ProblemCode::InvalidInput),
        },
{
    match query.q {
        None => Err(AppError::from_code(ProblemCode::InvalidInput)),
        Some(q) => {
            proof {
                text::lemma_utf16_empty(q@);
            }
            if q.as_str().unicode_len() == 0 || !utf16_within(q.as_str(), SHARE_TEXT_MAX) {
                Err(AppError::from_code(ProblemCode::InvalidInput))
            } else {
                Ok(q)
            }
        },
    }
}

/// The characters that are used of what is searched for: without white space around it, the first
/// `SHARE_TEXT_MAX`.
pub open spec fn used_text(raw: Seq<char>) -> Seq<char> {
    let t = text::trimmed(raw);
    if t.len() <= SHARE_TEXT_MAX {
        t
    } else {
        t.subrange(0, SHARE_TEXT_MAX as int)
    }
}

/// The characters that are used of what is searched for.
pub fn search_text(raw: &str) -> (r: String)
    ensures
        r@ == used_text(raw@),
{
    let t = trim(raw);
    if t.unicode_len() <= SHARE_TEXT_MAX {
        t.to_owned()
    } else {
        t.substring_char(0, SHARE_TEXT_MAX).to_owned()
    }
}

/// The characters of a text that are not white space.
pub open spec fn visible_chars(s: Seq<char>) -> nat
    decreases s.len(),
{
    if s.len() == 0 {
        0
    } else {
        visible_chars(s.drop_last()) + if text::is_white(s.last()) {
            0nat
        } else {
            1nat
        }
    }
}

/// Counts the characters of a text that are not white space.
fn count_visible(s: &str) -> (r: usize)
    ensures
        r == visible_chars(s@),
{
    let chars = chars_of(s);
    let mut count: usize = 0;
    let mut i: usize = 0;
    while i < chars.len()
        invariant
            i <= chars@.len(),
            chars@ == s@,
            count <= i,
            count == visible_chars(s@.subrange(0, i as int)),
        decreases chars.len() - i,
    {
        proof {
            let next = s@.subrange(0, i + 1);
            assert(next.drop_last() == s@.subrange(0, i as int));
            assert(next.last() == s@[i as int]);
        }
        if !white(chars[i]) {
            count = count + 1;
        }
        i = i + 1;
    }
    assert(s@.subrange(0, i as int) == s@);
    count
}

/// What one who has a link may search in: a document with what lies under it, or a project.
#[derive(Debug)]
pub struct ShareScope {
    pub workspace_id: Uuid,
    pub document_id: Option<Uuid>,
    pub project_id: Option<Uuid>,
    /// The documents that the link shows, where it is one of a document.
    pub visible: Vec<Uuid>,
}

/// A part of the index that is searched.
#[derive(Debug)]
pub struct MeiliSearchScope {
    pub workspace_id: String,
    pub project_ids: Vec<String>,
    pub include_wiki: bool,
    pub wiki_document_ids: Vec<String>,
}

/// The contents of a `MeiliSearchScope`.
#[verifier::ext_equal]
pub struct ScopeView {
    pub workspace_id: Seq<char>,
    pub project_ids: Seq<Seq<char>>,
    pub include_wiki: bool,
    pub wiki_document_ids: Seq<Seq<char>>,
}

impl View for MeiliSearchScope {
    type V = ScopeView;

    open spec fn view(&self) -> ScopeView {
        ScopeView {
            workspace_id: self.workspace_id@,
            project_ids: text::views(self.project_ids@),
            include_wiki: self.include_wiki,
            wiki_document_ids: text::views(self.wiki_document_ids@),
        }
    }
}

/// The contents of parts of the index.
pub open spec fn scope_views(scopes: Seq<MeiliSearchScope>) -> Seq<ScopeView> {
    scopes.map_values(|s: MeiliSearchScope| s@)
}

/// The part of the index with these documents of a workspace.
pub open spec fn document_part(workspace_id: Uuid, documents: Seq<Uuid>) -> ScopeView {
    ScopeView {
        workspace_id: ids::uuid_text(workspace_id.0),
        project_ids: Seq::empty(),
        include_wiki: false,
        wiki_document_ids: ids::uuid_texts(documents),
    }
}

/// The parts of the index with these documents of a workspace, `SHARE_DOC_ID_CHUNK` in each but
/// the last.
pub open spec fn document_parts(workspace_id: Uuid, documents: Seq<Uuid>) -> Seq<ScopeView>
    decreases documents.len(),
{
    if documents.len() == 0 {
        Seq::empty()
    } else if documents.len() <= SHARE_DOC_ID_CHUNK {
        seq![document_part(workspace_id, documents)]
    } else {
        seq![
            document_part(workspace_id, documents.subrange(0, SHARE_DOC_ID_CHUNK as int)),
        ] + document_parts(
            workspace_id,
            documents.subrange(SHARE_DOC_ID_CHUNK as int, documents.len() as int),
        )
    }
}

/// The parts of the index that are searched behind a link.
pub open spec fn searched_parts(scope: ShareScope) -> Seq<ScopeView> {
    if scope.document_id is Some {
        document_parts(scope.workspace_id, scope.visible@)
    } else {
        match scope.project_id {
            Some(p) => seq![
                ScopeView {
                    workspace_id: ids::uuid_text(scope.workspace_id.0),
                    project_ids: seq![ids::uuid_text(p.0)],
                    include_wiki: false,
                    wiki_document_ids: Seq::empty(),
                },
            ],
            None => Seq::empty(),
        }
    }
}

/// No texts.
fn no_texts() -> (r: Vec<String>)
    ensures
        text::views(r@) == Seq::<Seq<char>>::empty(),
{
    let none: Vec<String> = Vec::new();
    assert(text::views(none@) == Seq::<Seq<char>>::empty());
    none
}

/// The parts of the index with these documents of a workspace.
fn parts_of(workspace_id: Uuid, documents: &Vec<Uuid>) -> (r: Vec<MeiliSearchScope>)
    ensures
        scope_views(r@) == document_parts(workspace_id, documents@),
{
    let n: usize = documents.len();
    let mut out: Vec<MeiliSearchScope> = Vec::new();
    let mut at: usize = 0;
    assert(scope_views(out@) == Seq::<ScopeView>::empty());
    assert(documents@.subrange(0, n as int) == documents@);
    while at < n
        invariant
            at <= n == documents@.len(),
            scope_views(out@) + document_parts(
                workspace_id,
                documents@.subrange(at as int, n as int),
            ) == document_parts(workspace_id, documents@),
        decreases n - at,
    {
        let ghost rest = documents@.subrange(at as int, n as int);
        let ghost before = scope_views(out@);
        let end: usize = if n - at <= SHARE_DOC_ID_CHUNK {
            n
        } else {
            at + SHARE_DOC_ID_CHUNK
        };
        let part = texts_of(vstd::slice::slice_subrange(documents.as_slice(), at, end));
        let scope = MeiliSearchScope {
            workspace_id: workspace_id.text(),
            project_ids: no_texts(),
            include_wiki: false,
            wiki_document_ids: part,
        };
        proof {
            assert(rest.subrange(0, end - at) == documents@.subrange(at as int, end as int));
            assert(rest.subrange(end - at, rest.len() as int) == documents@.subrange(
                end as int,
                n as int,
            ));
            assert(scope@ == document_part(
                workspace_id,
                documents@.subrange(at as int, end as int),
            ));
            if rest.len() <= SHARE_DOC_ID_CHUNK {
                assert(rest == documents@.subrange(at as int, end as int));
                assert(documents@.subrange(end as int, n as int).len() == 0);
            }
        }
        out.push(scope);
        assert(scope_views(out@) == before.push(scope@));
        assert(document_parts(workspace_id, rest) == seq![scope@] + document_parts(
            workspace_id,
            documents@.subrange(end as int, n as int),
        ));
        assert(scope_views(out@) + document_parts(
            workspace_id,
            documents@.subrange(end as int, n as int),
        ) == before + document_parts(workspace_id, rest));
        at = end;
    }
    assert(document_parts(workspace_id, documents@.subrange(at as int, n as int)) == Seq::<
        ScopeView,
    >::empty());
    assert(scope_views(out@) + Seq::<ScopeView>::empty() == scope_views(out@));
    out
}

/// What is done for a search behind a link.
#[derive(Debug)]
pub enum SearchPlan {
    /// Nothing is found.
    Empty,
    /// There is no search.
    Unavailable,
    /// The index is asked, in pages where the link is one of a document.
    Ask { scopes: Vec<MeiliSearchScope>, document_share: bool },
}

/// What is done for a search behind a link. `q` is what is used of the text, `initials` whether it
/// is only initial consonants, of which there have to be `initials_min`; `available`, whether
/// there is a search.
pub fn plan_search(
    q: &str,
    initials: bool,
    initials_min: usize,
    scope: &ShareScope,
    available: bool,
) -> (r: SearchPlan)
    ensures
        if q@.len() == 0 || (initials && visible_chars(q@) < initials_min) || searched_parts(
            *scope,
        ).len() == 0 {
            r is Empty
        } else if !available {
            r is Unavailable
        } else {
            r matches SearchPlan::Ask { scopes, document_share } && scope_views(scopes@)
                == searched_parts(*scope) && document_share == scope.document_id is Some
        },
{
    if q.unicode_len() == 0 {
        return SearchPlan::Empty;
    }
    if initials && count_visible(q) < initials_min {
        return SearchPlan::Empty;
    }
    let document_share: bool = scope.document_id.is_some();
    let scopes: Vec<MeiliSearchScope> = if document_share {
        parts_of(scope.workspace_id, &scope.visible)
    } else {
        let mut out: Vec<MeiliSearchScope> = Vec::new();
        assert(scope_views(out@) == Seq::<ScopeView>::empty());
        if let Some(p) = scope.project_id {
            let mut project_ids = no_texts();
            project_ids.push(p.text());
            assert(text::views(project_ids@) == seq![ids::uuid_text(p.0)]);
            let part = MeiliSearchScope {
                workspace_id: scope.workspace_id.text(),
                project_ids,
                include_wiki: false,
                wiki_document_ids: no_texts(),
            };
            out.push(part);
            assert(scope_views(out@) == seq![part@]);
        }
        out
    };
    assert(scope_views(scopes@) == searched_parts(*scope));
    assert(scope_views(scopes@).len() == scopes@.len());
    if scopes.len() == 0 {
        return SearchPlan::Empty;
    }
    if !available {
        return SearchPlan::Unavailable;
    }
    SearchPlan::Ask { scopes, document_share }
}

/// What the index finds.
#[derive(Clone, Copy, Debug, PartialEq, Eq, Structural)]
pub enum HitKind {
    Document,
    Task,
    Other,
}

/// A hit of the index.
#[derive(Debug)]
pub struct MeiliHit {
    pub kind: HitKind,
    pub workspace_id: String,
    pub resource_id: String,
    pub score: Score,
}

/// What the index is asked.
#[derive(Debug)]
pub struct MeiliSearchInput {
    pub q: String,
    /// The stems of its words.
    pub stem: String,
    pub scopes: Vec<MeiliSearchScope>,
    pub kind: HitKind,
    pub limit: u32,
    pub offset: u32,
}

/// The contents of a `MeiliSearchInput`.
#[verifier::ext_equal]
pub struct IndexInputView {
    pub q: Seq<char>,
    pub stem: Seq<char>,
    pub scopes: Seq<ScopeView>,
    pub kind: HitKind,
    pub limit: u32,
    pub offset: u32,
}

impl View for MeiliSearchInput {
    type V = IndexInputView;

    open spec fn view(&self) -> IndexInputView {
        IndexInputView {
            q: self.q@,
            stem: self.stem@,
            scopes: scope_views(self.scopes@),
            kind: self.kind,
            limit: self.limit,
            offset: self.offset,
        }
    }
}

/// What the index is asked behind a link. One of a document is asked in pages, and for documents
/// only; one of a project is asked once for documents and once for tasks, for as many hits as an
/// answer may have. Initials have no stems.
pub open spec fn index_input(
    q: Seq<char>,
    stem: Seq<char>,
    initials: bool,
    scopes: Seq<ScopeView>,
    document_share: bool,
    tasks: bool,
    offset: u32,
) -> IndexInputView {
    IndexInputView {
        q,
        stem: if initials {
            Seq::empty()
        } else {
            stem
        },
        scopes,
        kind: if tasks && !document_share {
            HitKind::Task
        } else {
            HitKind::Document
        },
        limit: if document_share {
            SHARE_MEILI_PAGE
        } else {
            SHARE_SEARCH_LIMIT as u32
        },
        offset: if document_share {
            offset
        } else {
            0
        },
    }
}

fn copy_all(texts: &[String]) -> (r: Vec<String>)
    ensures
        text::views(r@) == text::views(texts@),
{
    let mut out: Vec<String> = Vec::new();
    let mut i: usize = 0;
    while i < texts.len()
        invariant
            i <= texts@.len(),
            out@.len() == i,
            forall|j: int| 0 <= j < i ==> (#[trigger] out@[j])@ == texts@[j]@,
        decreases texts.len() - i,
    {
        out.push(texts[i].as_str().to_owned());
        i = i + 1;
    }
    assert(text::views(out@) =~= text::views(texts@));
    out
}

fn copy_scopes(scopes: &[MeiliSearchScope]) -> (r: Vec<MeiliSearchScope>)
    ensures
        scope_views(r@) == scope_views(scopes@),
{
    let mut out: Vec<MeiliSearchScope> = Vec::new();
    let mut i: usize = 0;
    while i < scopes.len()
        invariant
            i <= scopes@.len(),
            out@.len() == i,
            forall|j: int| 0 <= j < i ==> (#[trigger] out@[j])@ == scopes@[j]@,
        decreases scopes.len() - i,
    {
        let scope = &scopes[i];
        out.push(
            MeiliSearchScope {
                workspace_id: scope.workspace_id.as_str().to_owned(),
                project_ids: copy_all(scope.project_ids.as_slice()),
                include_wiki: scope.include_wiki,
                wiki_document_ids: copy_all(scope.wiki_document_ids.as_slice()),
            },
        );
        i = i + 1;
    }
    assert(scope_views(out@) =~= scope_views(scopes@));
    out
}

/// What the index is asked behind a link.
pub fn index_query(
    q: &str,
    stem: &str,
    initials: bool,
    scopes: &[MeiliSearchScope],
    document_share: bool,
    tasks: bool,
    offset: u32,
) -> (r: MeiliSearchInput)
    ensures
        r@ == index_input(
            q@,
            stem@,
            initials,
            scope_views(scopes@),
            document_share,
            tasks,
            offset,
        ),
{
    proof {
        reveal_strlit("");
    }
    let used = if initials {
        ""
    } else {
        stem
    };
    assert(used@ =~= if initials {
        Seq::empty()
    } else {
        stem@
    });
    MeiliSearchInput {
        q: q.to_owned(),
        stem: used.to_owned(),
        scopes: copy_scopes(scopes),
        kind: if tasks && !document_share {
            HitKind::Task
        } else {
            HitKind::Document
        },
        limit: if document_share {
            SHARE_MEILI_PAGE
        } else {
            SHARE_SEARCH_LIMIT as u32
        },
        offset: if document_share {
            offset
        } else {
            0
        },
    }
}

/// How asking the index ended.
#[derive(Debug)]
pub enum IndexOutcome {
    Found(Vec<MeiliHit>),
    Failed,
    /// Not within the time that a search may take.
    TimedOut,
}

/// The answer where there is no search.
pub open spec fn says_unavailable(reply: CodedReply) -> bool {
    &&& reply.status == 503
    &&& header::header_views(reply.headers@) == problem::problem_headers(None)
    &&& reply.body@ == JsonView::Object(
        problem::problem_members(503, "search_unavailable"@, "search unavailable"@, None),
    )
}

/// The answer where there is no search.
pub fn search_unavailable() -> (r: CodedReply)
    ensures
        says_unavailable(r),
{
    coded_reply(503, "search_unavailable", "search unavailable", &None, None)
}

/// The hits of the index; an index that failed or took too long is as good as none.
pub fn index_hits(outcome: IndexOutcome) -> (r: Result<Vec<MeiliHit>, CodedReply>)
    ensures
        match outcome {
            IndexOutcome::Found(hits) => r == Ok::<_, CodedReply>(hits),
            _ => r matches Err(reply) && says_unavailable(reply),
        },
{
    match outcome {
        IndexOutcome::Found(hits) => Ok(hits),
        _ => Err(search_unavailable()),
    }
}

/// The pages of the index that are read for a link of a document.
#[derive(Debug)]
pub struct HitPages {
    pub hits: Vec<MeiliHit>,
    /// The pages that were read.
    pub pages: usize,
    /// Where the page starts that is read next.
    pub offset: u32,
}

impl HitPages {
    /// One more page is to be read.
    pub open spec fn open(&self) -> bool {
        self.pages < SHARE_MEILI_PAGES
    }

    /// Nothing was read yet.
    pub fn new() -> (r: Self)
        ensures
            r.hits@.len() == 0,
            r.pages == 0,
            r.offset == 0,
            r.open(),
    {
        HitPages { hits: Vec::new(), pages: 0, offset: 0 }
    }

    /// Takes a page; says where the next one starts, if one more is to be read: there has to be
    /// one, this one to have had hits, and too few to have been found so far.
    pub fn take_page(&mut self, page: Vec<MeiliHit>, next_offset: Option<u32>) -> (r: Option<u32>)
        requires
            old(self).open(),
        ensures
            final(self).hits@ == old(self).hits@ + page@,
            final(self).pages == old(self).pages + 1,
            final(self).offset == match r {
                Some(next) => next,
                None => old(self).offset,
            },
            r == if page@.len() > 0 && final(self).hits@.len() < SHARE_SEARCH_LIMIT
                && final(self).open() {
                next_offset
            } else {
                None
            },
    {
        let empty: bool = page.len() == 0;
        let mut page = page;
        self.hits.append(&mut page);
        self.pages = self.pages + 1;
        if !empty && self.hits.len() < SHARE_SEARCH_LIMIT && self.pages < SHARE_MEILI_PAGES {
            if let Some(next) = next_offset {
                self.offset = next;
            }
            next_offset
        } else {
            None
        }
    }
}

/// A hit among hits in the order of their scores: before the first that does not match better.
pub open spec fn placed(hit: MeiliHit, sorted: Seq<MeiliHit>) -> Seq<MeiliHit>
    decreases sorted.len(),
{
    if sorted.len() == 0 || sorted[0].score.0 <= hit.score.0 {
        seq![hit] + sorted
    } else {
        seq![sorted[0]] + placed(hit, sorted.drop_first())
    }
}

/// Hits with the best first; of those that match alike, the one that came first.
pub open spec fn ranked(hits: Seq<MeiliHit>) -> Seq<MeiliHit>
    decreases hits.len(),
{
    if hits.len() == 0 {
        Seq::empty()
    } else {
        placed(hits[0], ranked(hits.drop_first()))
    }
}

/// Where a hit is placed.
proof fn lemma_placed(hit: MeiliHit, sorted: Seq<MeiliHit>, at: int)
    requires
        0 <= at <= sorted.len(),
        forall|j: int| 0 <= j < at ==> (#[trigger] sorted[j]).score.0 > hit.score.0,
        at < sorted.len() ==> sorted[at].score.0 <= hit.score.0,
    ensures
        placed(hit, sorted) == sorted.insert(at, hit),
    decreases sorted.len(),
{
    if at == 0 {
        assert(seq![hit] + sorted == sorted.insert(0, hit));
    } else {
        let rest = sorted.drop_first();
        assert forall|j: int| 0 <= j < at - 1 implies (#[trigger] rest[j]).score.0 > hit.score.0 by {
            assert(rest[j] == sorted[j + 1]);
        }
        lemma_placed(hit, rest, at - 1);
        assert(seq![sorted[0]] + rest.insert(at - 1, hit) == sorted.insert(at, hit));
    }
}

/// The hits for a link of a project: those among the documents and those among the tasks, the best
/// first.
pub fn rank_hits(docs: Vec<MeiliHit>, tasks: Vec<MeiliHit>) -> (r: Vec<MeiliHit>)
    ensures
        r@ == ranked(docs@ + tasks@),
{
    let mut left = docs;
    let mut tasks = tasks;
    left.append(&mut tasks);
    let ghost all = left@;
    let mut sorted: Vec<MeiliHit> = Vec::new();
    assert(all.subrange(all.len() as int, all.len() as int).len() == 0);
    assert(all.subrange(0, all.len() as int) == all);
    while left.len() > 0
        invariant
            left@.len() <= all.len(),
            left@ == all.subrange(0, left@.len() as int),
            sorted@ == ranked(all.subrange(left@.len() as int, all.len() as int)),
        decreases left.len(),
    {
        let ghost n = left@.len();
        if let Some(hit) = left.pop() {
            let ghost tail = all.subrange(n - 1, all.len() as int);
            let mut at: usize = 0;
            while at < sorted.len() && sorted[at].score.0 > hit.score.0
                invariant
                    at <= sorted@.len(),
                    forall|j: int|
                        0 <= j < at ==> (#[trigger] sorted@[j]).score.0 > hit.score.0,
                decreases sorted.len() - at,
            {
                at = at + 1;
            }
            proof {
                lemma_placed(hit, sorted@, at as int);
                assert(tail[0] == hit);
                assert(tail.drop_first() == all.subrange(n as int, all.len() as int));
            }
            sorted.insert(at, hit);
            assert(left@ == all.subrange(0, n - 1));
        }
    }
    assert(all.subrange(0, all.len() as int) == all);
    sorted
}

/// Hits in the order of their scores come out so: the better ones first, and each as often as it
/// was there.
pub proof fn law_ranked_hits_are_sorted(hits: Seq<MeiliHit>)
    ensures
        forall|i: int, j: int|
            0 <= i < j < ranked(hits).len() ==> (#[trigger] ranked(hits)[i]).score.0
                >= (#[trigger] ranked(hits)[j]).score.0,
        ranked(hits).to_multiset() == hits.to_multiset(),
    decreases hits.len(),
{
    broadcast use vstd::seq_lib::group_to_multiset_ensures;

    if hits.len() == 0 {
        assert(ranked(hits) =~= hits);
    } else {
        let rest = hits.drop_first();
        law_ranked_hits_are_sorted(rest);
        lemma_placed_keeps_order(hits[0], ranked(rest));
        assert(hits =~= seq![hits[0]] + rest);
        assert((seq![hits[0]] + rest).to_multiset() =~= rest.to_multiset().insert(hits[0])) by {
            vstd::seq_lib::lemma_multiset_commutative(seq![hits[0]], rest);
            assert(seq![hits[0]] =~= Seq::<MeiliHit>::empty().push(hits[0]));
        }
    }
}

/// A hit is placed among hits in order so that they stay in order.
proof fn lemma_placed_keeps_order(hit: MeiliHit, sorted: Seq<MeiliHit>)
    requires
        forall|i: int, j: int|
            0 <= i < j < sorted.len() ==> (#[trigger] sorted[i]).score.0 >= (
            #[trigger] sorted[j]).score.0,
    ensures
        forall|i: int, j: int|
            0 <= i < j < placed(hit, sorted).len() ==> (#[trigger] placed(
                hit,
                sorted,
            )[i]).score.0 >= (#[trigger] placed(hit, sorted)[j]).score.0,
        placed(hit, sorted).to_multiset() == sorted.to_multiset().insert(hit),
{
    let at = first_not_better(hit, sorted);
    lemma_first_not_better(hit, sorted);
    lemma_placed(hit, sorted, at);
    let out = sorted.insert(at, hit);
    assert forall|i: int, j: int| 0 <= i < j < out.len() implies (#[trigger] out[i]).score.0 >= (
    #[trigger] out[j]).score.0 by {
        if i < at && j > at {
            assert(out[j] == sorted[j - 1]);
            assert(out[i] == sorted[i]);
        } else if i == at {
            assert(out[j] == sorted[j - 1]);
            if j - 1 > at {
                assert(sorted[at].score.0 >= sorted[j - 1].score.0);
            }
        } else if i > at {
            assert(out[i] == sorted[i - 1]);
            assert(out[j] == sorted[j - 1]);
        } else if j == at {
            assert(out[i] == sorted[i]);
        } else {
            assert(out[i] == sorted[i]);
            assert(out[j] == sorted[j]);
        }
    }
    vstd::seq_lib::to_multiset_insert(sorted, at, hit);
}

/// The place of the first hit that does not match better.
spec fn first_not_better(hit: MeiliHit, sorted: Seq<MeiliHit>) -> int
    decreases sorted.len(),
{
    if sorted.len() == 0 || sorted[0].score.0 <= hit.score.0 {
        0
    } else {
        1 + first_not_better(hit, sorted.drop_first())
    }
}

proof fn lemma_first_not_better(hit: MeiliHit, sorted: Seq<MeiliHit>)
    ensures
        0 <= first_not_better(hit, sorted) <= sorted.len(),
        forall|j: int|
            0 <= j < first_not_better(hit, sorted) ==> (#[trigger] sorted[j]).score.0
                > hit.score.0,
        first_not_better(hit, sorted) < sorted.len() ==> sorted[first_not_better(
            hit,
            sorted,
        )].score.0 <= hit.score.0,
    decreases sorted.len(),
{
    if sorted.len() > 0 && sorted[0].score.0 > hit.score.0 {
        let rest = sorted.drop_first();
        lemma_first_not_better(hit, rest);
        let at = first_not_better(hit, rest);
        assert forall|j: int| 0 <= j < 1 + at implies (#[trigger] sorted[j]).score.0
            > hit.score.0 by {
            if j > 0 {
                assert(rest[j - 1] == sorted[j]);
            }
        }
        if at < rest.len() {
            assert(rest[at] == sorted[at + 1]);
        }
    }
}

/// A hit that may be shown.
#[derive(Clone, Copy, Debug, PartialEq, Eq, Structural)]
pub struct FoundHit {
    pub is_task: bool,
    pub id: Uuid,
    pub score: Score,
}

/// The document or task of a workspace that a hit is, if it is one.
pub open spec fn hit_key(hit: MeiliHit, workspace_id: Uuid) -> Option<(bool, Uuid)> {
    if hit.kind == HitKind::Other || hit.workspace_id@ != ids::uuid_text(workspace_id.0) {
        None
    } else {
        match ids::uuid_of(hit.resource_id@) {
            Some(v) => Some((hit.kind == HitKind::Task, Uuid(v))),
            None => None,
        }
    }
}

/// A document or task is among the hits.
pub open spec fn is_among(found: Seq<FoundHit>, key: (bool, Uuid)) -> bool {
    exists|i: int|
        0 <= i < found.len() && (#[trigger] found[i]).is_task == key.0 && found[i].id == key.1
}

/// The documents and tasks of a workspace among the hits, each once and where it first came.
pub open spec fn distinct_hits(hits: Seq<MeiliHit>, workspace_id: Uuid) -> Seq<FoundHit>
    decreases hits.len(),
{
    if hits.len() == 0 {
        Seq::empty()
    } else {
        let before = distinct_hits(hits.drop_last(), workspace_id);
        match hit_key(hits.last(), workspace_id) {
            Some(key) => if is_among(before, key) {
                before
            } else {
                before.push(FoundHit { is_task: key.0, id: key.1, score: hits.last().score })
            },
            None => before,
        }
    }
}

/// Whether a document or task is among the hits.
fn among(found: &Vec<FoundHit>, is_task: bool, id: Uuid) -> (r: bool)
    ensures
        r == is_among(found@, (is_task, id)),
{
    let mut i: usize = 0;
    while i < found.len()
        invariant
            i <= found@.len(),
            forall|j: int|
                0 <= j < i ==> (#[trigger] found@[j]).is_task != is_task || found@[j].id != id,
        decreases found.len() - i,
    {
        if found[i].is_task == is_task && found[i].id == id {
            assert(found@[i as int].is_task == is_task);
            return true;
        }
        i = i + 1;
    }
    false
}

/// The document or task of a workspace that a hit is.
fn key_of(hit: &MeiliHit, workspace: &str, workspace_id: Uuid) -> (r: Option<(bool, Uuid)>)
    requires
        workspace@ == ids::uuid_text(workspace_id.0),
    ensures
        r == hit_key(*hit, workspace_id),
{
    let is_task: bool = match hit.kind {
        HitKind::Document => false,
        HitKind::Task => true,
        HitKind::Other => {
            return None;
        },
    };
    if !same(hit.workspace_id.as_str(), workspace) {
        return None;
    }
    match Uuid::parse_str(hit.resource_id.as_str()) {
        Some(id) => Some((is_task, id)),
        None => None,
    }
}

/// The documents and tasks of a workspace among the hits, each once and where it first came.
pub fn distinct(hits: &[MeiliHit], workspace_id: Uuid) -> (r: Vec<FoundHit>)
    ensures
        r@ == distinct_hits(hits@, workspace_id),
{
    let workspace = workspace_id.text();
    let mut found: Vec<FoundHit> = Vec::new();
    let mut i: usize = 0;
    assert(found@ == distinct_hits(hits@.subrange(0, 0), workspace_id));
    while i < hits.len()
        invariant
            i <= hits@.len(),
            workspace@ == ids::uuid_text(workspace_id.0),
            found@ == distinct_hits(hits@.subrange(0, i as int), workspace_id),
        decreases hits.len() - i,
    {
        proof {
            let next = hits@.subrange(0, i + 1);
            assert(next.drop_last() == hits@.subrange(0, i as int));
            assert(next.last() == hits@[i as int]);
        }
        if let Some(key) = key_of(&hits[i], workspace.as_str(), workspace_id) {
            if !among(&found, key.0, key.1) {
                found.push(FoundHit { is_task: key.0, id: key.1, score: hits[i].score });
            }
        }
        i = i + 1;
    }
    assert(hits@.subrange(0, i as int) == hits@);
    found
}

/// The ids of the tasks, or of the documents, among the hits.
pub open spec fn ids_among(found: Seq<FoundHit>, tasks: bool) -> Seq<Uuid>
    decreases found.len(),
{
    if found.len() == 0 {
        Seq::empty()
    } else {
        let before = ids_among(found.drop_last(), tasks);
        if found.last().is_task == tasks {
            before.push(found.last().id)
        } else {
            before
        }
    }
}

/// The ids of the tasks, or of the documents, among the hits.
pub fn found_ids(found: &[FoundHit], tasks: bool) -> (r: Vec<Uuid>)
    ensures
        r@ == ids_among(found@, tasks),
{
    let mut out: Vec<Uuid> = Vec::new();
    let mut i: usize = 0;
    assert(out@ == ids_among(found@.subrange(0, 0), tasks));
    while i < found.len()
        invariant
            i <= found@.len(),
            out@ == ids_among(found@.subrange(0, i as int), tasks),
        decreases found.len() - i,
    {
        proof {
            let next = found@.subrange(0, i + 1);
            assert(next.drop_last() == found@.subrange(0, i as int));
            assert(next.last() == found@[i as int]);
        }
        if found[i].is_task == tasks {
            out.push(found[i].id);
        }
        i = i + 1;
    }
    assert(found@.subrange(0, i as int) == found@);
    out
}

/// No document or task is found twice.
pub proof fn law_hits_are_distinct(hits: Seq<MeiliHit>, workspace_id: Uuid)
    ensures
        forall|i: int, j: int|
            0 <= i < j < distinct_hits(hits, workspace_id).len() ==> (#[trigger] distinct_hits(
                hits,
                workspace_id,
            )[i]).is_task != (#[trigger] distinct_hits(hits, workspace_id)[j]).is_task
                || distinct_hits(hits, workspace_id)[i].id != distinct_hits(
                hits,
                workspace_id,
            )[j].id,
    decreases hits.len(),
{
    if hits.len() > 0 {
        law_hits_are_distinct(hits.drop_last(), workspace_id);
        let before = distinct_hits(hits.drop_last(), workspace_id);
        let out = distinct_hits(hits, workspace_id);
        assert forall|i: int, j: int| 0 <= i < j < out.len() implies (#[trigger] out[i]).is_task
            != (#[trigger] out[j]).is_task || out[i].id != out[j].id by {
            assert(out[i] == before[i]);
            if j < before.len() {
                assert(out[j] == before[j]);
            } else {
                assert(!is_among(before, (out[j].is_task, out[j].id)));
            }
        }
    }
}

/// A document or task that one who has the link may see, as the store has it now.
#[derive(Debug)]
pub struct ShareSearchRow {
    pub is_task: bool,
    pub id: Uuid,
    pub title: String,
    pub project_id: Option<Uuid>,
    pub updated_at: Timestamp,
    /// The pieces around what was searched for in its text, if it is there.
    pub in_body: Option<Vec<SearchSnippetPiece>>,
    /// The pieces around what was searched for in its title, if it is there.
    pub in_title: Option<Vec<SearchSnippetPiece>>,
}

/// The pieces around what was searched for: in the text, or else in the title.
pub open spec fn pieces_of(row: ShareSearchRow) -> Option<Vec<SearchSnippetPiece>> {
    match row.in_body {
        Some(p) => Some(p),
        None => row.in_title,
    }
}

/// The texts of pieces, one after the other.
pub open spec fn pieces_text(pieces: Seq<SearchSnippetPiece>) -> Seq<char>
    decreases pieces.len(),
{
    if pieces.len() == 0 {
        Seq::empty()
    } else {
        pieces_text(pieces.drop_last()) + pieces.last().text@
    }
}

/// The pieces around a hit are shown: not where only initials were searched for, nor where they
/// say no more than the title.
pub open spec fn snippet_shown(row: ShareSearchRow, initials: bool) -> bool {
    !initials && (pieces_of(row) matches Some(p) && pieces_text(p@) != row.title@)
}

/// The pieces around a hit, where they are shown.
pub fn share_snippet(row: &ShareSearchRow, initials: bool) -> (r: Option<Vec<SearchSnippetPiece>>)
    ensures
        if snippet_shown(*row, initials) {
            r matches Some(out) && answer::all_answered(pieces_of(*row)->Some_0@, out@)
        } else {
            r is None
        },
{
    if initials {
        return None;
    }
    let pieces = match &row.in_body {
        Some(p) => p,
        None => match &row.in_title {
            Some(p) => p,
            None => {
                return None;
            },
        },
    };
    let mut joined: String = String::new();
    let mut i: usize = 0;
    assert(joined@ == pieces_text(pieces@.subrange(0, 0)));
    while i < pieces.len()
        invariant
            i <= pieces@.len(),
            joined@ == pieces_text(pieces@.subrange(0, i as int)),
        decreases pieces.len() - i,
    {
        proof {
            let next = pieces@.subrange(0, i + 1);
            assert(next.drop_last() == pieces@.subrange(0, i as int));
            assert(next.last() == pieces@[i as int]);
        }
        joined.append(pieces[i].text.as_str());
        i = i + 1;
    }
    assert(pieces@.subrange(0, i as int) == pieces@);
    if same(joined.as_str(), row.title.as_str()) {
        return None;
    }
    Some(answer_all(pieces.as_slice()))
}

/// The row of a document or task, the last where there are more.
pub open spec fn row_of(rows: Seq<ShareSearchRow>, hit: FoundHit) -> Option<ShareSearchRow>
    decreases rows.len(),
{
    if rows.len() == 0 {
        None
    } else if rows.last().is_task == hit.is_task && rows.last().id == hit.id {
        Some(rows.last())
    } else {
        row_of(rows.drop_last(), hit)
    }
}

/// The hits that are answered, with their rows: the first `SHARE_SEARCH_LIMIT` that the store lets
/// be seen.
pub open spec fn seen_hits(found: Seq<FoundHit>, rows: Seq<ShareSearchRow>) -> Seq<
    (FoundHit, ShareSearchRow),
>
    decreases found.len(),
{
    if found.len() == 0 {
        Seq::empty()
    } else {
        let before = seen_hits(found.drop_last(), rows);
        if before.len() >= SHARE_SEARCH_LIMIT {
            before
        } else {
            match row_of(rows, found.last()) {
                Some(row) => before.push((found.last(), row)),
                None => before,
            }
        }
    }
}

/// A hit as it is answered.
pub open spec fn shows_hit(
    hit: FoundHit,
    row: ShareSearchRow,
    workspace_id: Uuid,
    initials: bool,
    out: SearchItemOutput,
) -> bool {
    let id = ids::uuid_text(row.id.0);
    &&& out.kind@ == if hit.is_task {
        "task"@
    } else {
        "document"@
    }
    &&& out.id@ == id
    &&& out.title@ == row.title@
    &&& out.display_id is None
    &&& out.extract_status is None
    &&& out.chunk_no is None
    &&& if snippet_shown(row, initials) {
        out.snippet matches Some(o) && answer::all_answered(pieces_of(row)->Some_0@, o@)
    } else {
        out.snippet is None
    }
    &&& error::text_view(out.project_id) == ids::opt_text(row.project_id)
    &&& error::text_view(out.document_id) == if hit.is_task {
        None
    } else {
        Some(id)
    }
    &&& error::text_view(out.task_id) == if hit.is_task {
        Some(id)
    } else {
        None
    }
    &&& out.score == hit.score
    &&& out.updated_at@ == time::rfc3339_millis(row.updated_at@ as i64)
    &&& out.workspace_id@ == ids::uuid_text(workspace_id.0)
}

/// The row of a document or task.
fn find_row<'a>(rows: &'a [ShareSearchRow], hit: FoundHit) -> (r: Option<&'a ShareSearchRow>)
    ensures
        match r {
            Some(row) => row_of(rows@, hit) == Some(*row),
            None => row_of(rows@, hit) is None,
        },
{
    let mut n: usize = rows.len();
    assert(rows@.subrange(0, n as int) == rows@);
    while n > 0
        invariant
            n <= rows@.len(),
            row_of(rows@, hit) == row_of(rows@.subrange(0, n as int), hit),
        decreases n,
    {
        proof {
            let front = rows@.subrange(0, n as int);
            assert(front.last() == rows@[n - 1]);
            assert(front.drop_last() == rows@.subrange(0, n - 1));
        }
        if rows[n - 1].is_task == hit.is_task && rows[n - 1].id == hit.id {
            return Some(&rows[n - 1]);
        }
        n = n - 1;
    }
    None
}

/// A hit as it is answered.
fn show_hit(hit: FoundHit, row: &ShareSearchRow, workspace_id: Uuid, initials: bool) -> (r:
    SearchItemOutput)
    ensures
        shows_hit(hit, *row, workspace_id, initials, r),
{
    let id = row.id.text();
    SearchItemOutput {
        kind: if hit.is_task {
            "task".to_owned()
        } else {
            "document".to_owned()
        },
        id: row.id.text(),
        title: row.title.clone(),
        display_id: None,
        extract_status: None,
        chunk_no: None,
        snippet: share_snippet(row, initials),
        project_id: text_of(row.project_id),
        document_id: if hit.is_task {
            None
        } else {
            Some(row.id.text())
        },
        task_id: if hit.is_task {
            Some(id)
        } else {
            None
        },
        score: hit.score,
        updated_at: row.updated_at.iso(),
        workspace_id: workspace_id.text(),
    }
}

/// The answer to a search behind a link: the index only proposes; what the store has, in `rows`,
/// is what is seen.
pub fn search_reply(
    found: &[FoundHit],
    rows: &[ShareSearchRow],
    workspace_id: Uuid,
    initials: bool,
) -> (r: SearchListResponse)
    ensures
        r.next_cursor is None,
        r.items@.len() == seen_hits(found@, rows@).len(),
        forall|i: int|
            0 <= i < r.items@.len() ==> shows_hit(
                seen_hits(found@, rows@)[i].0,
                seen_hits(found@, rows@)[i].1,
                workspace_id,
                initials,
                #[trigger] r.items@[i],
            ),
{
    let mut items: Vec<SearchItemOutput> = Vec::new();
    let mut i: usize = 0;
    let ghost mut seen: Seq<(FoundHit, ShareSearchRow)> = Seq::empty();
    assert(seen == seen_hits(found@.subrange(0, 0), rows@));
    while i < found.len()
        invariant
            i <= found@.len(),
            seen == seen_hits(found@.subrange(0, i as int), rows@),
            items@.len() == seen.len(),
            forall|k: int|
                0 <= k < items@.len() ==> shows_hit(
                    seen[k].0,
                    seen[k].1,
                    workspace_id,
                    initials,
                    #[trigger] items@[k],
                ),
        decreases found.len() - i,
    {
        proof {
            let next = found@.subrange(0, i + 1);
            assert(next.drop_last() == found@.subrange(0, i as int));
            assert(next.last() == found@[i as int]);
        }
        if items.len() < SHARE_SEARCH_LIMIT {
            if let Some(row) = find_row(rows, found[i]) {
                proof {
                    seen = seen.push((found@[i as int], *row));
                }
                items.push(show_hit(found[i], row, workspace_id, initials));
            }
        }
        i = i + 1;
    }
    assert(found@.subrange(0, i as int) == found@);
    SearchListResponse { items, next_cursor: None }
}

/// An answer to a search behind a link has no more hits than it may.
pub proof fn law_answers_stay_within_limit(found: Seq<FoundHit>, rows: Seq<ShareSearchRow>)
    ensures
        seen_hits(found, rows).len() <= SHARE_SEARCH_LIMIT,
    decreases found.len(),
{
    if found.len() > 0 {
        law_answers_stay_within_limit(found.drop_last(), rows);
    }
}

/// Only what the store lets be seen is answered.
pub proof fn law_only_visible_rows_are_answered(
    found: Seq<FoundHit>,
    rows: Seq<ShareSearchRow>,
    i: int,
)
    requires
        0 <= i < seen_hits(found, rows).len(),
    ensures
        rows.contains(seen_hits(found, rows)[i].1),
        found.contains(seen_hits(found, rows)[i].0),
    decreases found.len(),
{
    let before = seen_hits(found.drop_last(), rows);
    let out = seen_hits(found, rows);
    if i < before.len() {
        law_only_visible_rows_are_answered(found.drop_last(), rows, i);
        assert(out[i] == before[i]);
        let k = choose|k: int|
            0 <= k < found.drop_last().len() && found.drop_last()[k] == before[i].0;
        assert(found[k] == out[i].0);
    } else {
        lemma_row_is_there(rows, found.last());
        assert(found[found.len() - 1] == out[i].0);
    }
}

proof fn lemma_row_is_there(rows: Seq<ShareSearchRow>, hit: FoundHit)
    ensures
        row_of(rows, hit) matches Some(row) ==> rows.contains(row),
    decreases rows.len(),
{
    if rows.len() > 0 {
        if rows.last().is_task == hit.is_task && rows.last().id == hit.id {
            assert(rows[rows.len() - 1] == rows.last());
        } else {
            lemma_row_is_there(rows.drop_last(), hit);
            if let Some(row) = row_of(rows.drop_last(), hit) {
                let k = choose|k: int| 0 <= k < rows.drop_last().len() && rows.drop_last()[k] == row;
                assert(rows[k] == row);
            }
        }
    }
}

/// A row is that of a hit: of the same kind and with the same id.
pub open spec fn is_row_of(row: ShareSearchRow, hit: FoundHit) -> bool {
    row.is_task == hit.is_task && row.id == hit.id
}

/// The row of a hit is the last one of its kind and id; a hit has none exactly where no row is of
/// its kind and id.
pub proof fn law_row_is_the_last_of_its_kind_and_id(rows: Seq<ShareSearchRow>, hit: FoundHit)
    ensures
        match row_of(rows, hit) {
            Some(row) => exists|k: int|
                0 <= k < rows.len() && #[trigger] rows[k] == row && is_row_of(row, hit) && forall|
                    j: int,
                |
                    k < j < rows.len() ==> !is_row_of(#[trigger] rows[j], hit),
            None => forall|j: int| 0 <= j < rows.len() ==> !is_row_of(#[trigger] rows[j], hit),
        },
    decreases rows.len(),
{
    if rows.len() > 0 {
        let n = rows.len() - 1;
        let front = rows.drop_last();
        assert(rows.last() == rows[n]);
        if !is_row_of(rows[n], hit) {
            law_row_is_the_last_of_its_kind_and_id(front, hit);
            assert(row_of(rows, hit) == row_of(front, hit));
            match row_of(front, hit) {
                Some(row) => {
                    let k = choose|k: int|
                        0 <= k < front.len() && #[trigger] front[k] == row && forall|j: int|
                            k < j < front.len() ==> !is_row_of(#[trigger] front[j], hit);
                    assert(rows[k] == row);
                    assert forall|j: int| k < j < rows.len() implies !is_row_of(
                        #[trigger] rows[j],
                        hit,
                    ) by {
                        if j < n {
                            assert(front[j] == rows[j]);
                        }
                    }
                },
                None => {
                    assert forall|j: int| 0 <= j < rows.len() implies !is_row_of(
                        #[trigger] rows[j],
                        hit,
                    ) by {
                        if j < n {
                            assert(front[j] == rows[j]);
                        }
                    }
                },
            }
        } else {
            assert(row_of(rows, hit) == Some(rows[n]));
        }
    }
}

/// The store has a row for a hit, whether it is a task or a document.
pub open spec fn has_row(rows: Seq<ShareSearchRow>, hit: FoundHit) -> bool {
    exists|k: int|
        0 <= k < rows.len() && (#[trigger] rows[k]).is_task == hit.is_task && rows[k].id == hit.id
}

/// Every hit that the store has a row for is answered, tasks and documents alike, in the order of
/// the hits, unless as many as an answer may have come before it.
pub proof fn law_every_visible_hit_is_answered(found: Seq<FoundHit>, rows: Seq<ShareSearchRow>)
    ensures
        ({
            let visible = found.filter(|hit: FoundHit| has_row(rows, hit));
            let seen = seen_hits(found, rows);
            &&& seen.len() == if visible.len() < SHARE_SEARCH_LIMIT {
                visible.len()
            } else {
                SHARE_SEARCH_LIMIT as nat
            }
            &&& forall|i: int| 0 <= i < seen.len() ==> (#[trigger] seen[i]).0 == visible[i]
            &&& forall|i: int|
                0 <= i < seen.len() ==> (#[trigger] seen[i]).1.is_task == seen[i].0.is_task
                    && seen[i].1.id == seen[i].0.id && rows.contains(seen[i].1)
        }),
    decreases found.len(),
{
    reveal(Seq::filter);
    let pred = |hit: FoundHit| has_row(rows, hit);
    if found.len() > 0 {
        let front = found.drop_last();
        let hit = found.last();
        law_every_visible_hit_is_answered(front, rows);
        law_row_is_the_last_of_its_kind_and_id(rows, hit);
        assert(row_of(rows, hit) is Some <==> pred(hit)) by {
            if let Some(row) = row_of(rows, hit) {
                let k = choose|k: int| 0 <= k < rows.len() && #[trigger] rows[k] == row;
                assert(rows[k].is_task == hit.is_task);
            } else if pred(hit) {
                let k = choose|k: int|
                    0 <= k < rows.len() && (#[trigger] rows[k]).is_task == hit.is_task && rows[k].id
                        == hit.id;
                assert(is_row_of(rows[k], hit));
            }
        }
        let before = seen_hits(front, rows);
        let seen = seen_hits(found, rows);
        assert forall|i: int| 0 <= i < seen.len() implies (#[trigger] seen[i]).0 == found.filter(
            pred,
        )[i] && seen[i].1.is_task == seen[i].0.is_task && seen[i].1.id == seen[i].0.id
            && rows.contains(seen[i].1) by {
            if i < before.len() {
                assert(seen[i] == before[i]);
            }
        }
    }
}

/// With no more hits than an answer may have, the answer has as many as there are hits with a row.
pub proof fn law_short_answers_are_complete(found: Seq<FoundHit>, rows: Seq<ShareSearchRow>)
    requires
        found.len() <= SHARE_SEARCH_LIMIT,
    ensures
        seen_hits(found, rows).len() == found.filter(|hit: FoundHit| has_row(rows, hit)).len(),
        forall|i: int|
            0 <= i < found.len() && has_row(rows, #[trigger] found[i]) ==> exists|k: int|
                0 <= k < seen_hits(found, rows).len() && (#[trigger] seen_hits(found, rows)[k]).0
                    == found[i],
{
    let pred = |hit: FoundHit| has_row(rows, hit);
    law_every_visible_hit_is_answered(found, rows);
    found.lemma_filter_len(pred);
    let visible = found.filter(pred);
    let seen = seen_hits(found, rows);
    assert forall|i: int| 0 <= i < found.len() && has_row(rows, #[trigger] found[i]) implies exists|
        k: int,
    |
        0 <= k < seen.len() && (#[trigger] seen[k]).0 == found[i] by {
        found.lemma_filter_contains(pred, i);
        let k = visible.index_of(found[i]);
        assert(seen[k].0 == visible[k]);
    }
}

/// The documents of all parts, in turn.
pub open spec fn documents_of(parts: Seq<ScopeView>) -> Seq<Seq<char>>
    decreases parts.len(),
{
    if parts.len() == 0 {
        Seq::empty()
    } else {
        parts[0].wiki_document_ids + documents_of(parts.drop_first())
    }
}

/// The parts of the index that are searched behind a link of a document hold exactly the documents
/// that it shows, each where it stood, none of them too many or none at all, and nothing else.
pub proof fn law_parts_hold_the_visible_documents(workspace_id: Uuid, documents: Seq<Uuid>)
    ensures
        documents_of(document_parts(workspace_id, documents)) == documents.map_values(
            |id: Uuid| ids::uuid_text(id.0),
        ),
        forall|i: int|
            0 <= i < document_parts(workspace_id, documents).len() ==> {
                let part = #[trigger] document_parts(workspace_id, documents)[i];
                &&& part.workspace_id == ids::uuid_text(workspace_id.0)
                &&& part.project_ids.len() == 0
                &&& !part.include_wiki
                &&& 1 <= part.wiki_document_ids.len() <= SHARE_DOC_ID_CHUNK
            },
    decreases documents.len(),
{
    let parts = document_parts(workspace_id, documents);
    let texts = documents.map_values(|id: Uuid| ids::uuid_text(id.0));
    if documents.len() == 0 {
        assert(documents_of(parts) =~= texts);
    } else if documents.len() <= SHARE_DOC_ID_CHUNK {
        assert(documents_of(parts.drop_first()) =~= Seq::<Seq<char>>::empty());
        assert(documents_of(parts) =~= texts);
    } else {
        let n = SHARE_DOC_ID_CHUNK as int;
        let front = documents.subrange(0, n);
        let rest = documents.subrange(n, documents.len() as int);
        law_parts_hold_the_visible_documents(workspace_id, rest);
        let tail = document_parts(workspace_id, rest);
        assert(parts.drop_first() =~= tail);
        assert(documents_of(parts) =~= texts);
        assert forall|i: int| 0 <= i < parts.len() implies {
            let part = #[trigger] parts[i];
            &&& part.workspace_id == ids::uuid_text(workspace_id.0)
            &&& part.project_ids.len() == 0
            &&& !part.include_wiki
            &&& 1 <= part.wiki_document_ids.len() <= SHARE_DOC_ID_CHUNK
        } by {
            if i > 0 {
                assert(parts[i] == tail[i - 1]);
            } else {
                assert(parts[0] == document_part(workspace_id, front));
            }
        }
    }
}

/// A link searches in what it is of and in nothing else: one of a document in the documents that it
/// shows, one of a project in that project, never in the wiki as a whole nor in another workspace.
pub proof fn law_search_stays_behind_the_link(scope: ShareScope)
    ensures
        forall|i: int|
            0 <= i < searched_parts(scope).len() ==> {
                let part = #[trigger] searched_parts(scope)[i];
                &&& part.workspace_id == ids::uuid_text(scope.workspace_id.0)
                &&& !part.include_wiki
                &&& part.project_ids.len() == 0 <==> scope.document_id is Some
            },
        scope.document_id is Some ==> documents_of(searched_parts(scope))
            == scope.visible@.map_values(|id: Uuid| ids::uuid_text(id.0)),
        scope.document_id is None ==> (scope.project_id matches Some(p) && searched_parts(
            scope,
        ).len() == 1 && searched_parts(scope)[0].project_ids == seq![ids::uuid_text(p.0)]
            && searched_parts(scope)[0].wiki_document_ids.len() == 0) || (scope.project_id is None
            && searched_parts(scope).len() == 0),
{
    if scope.document_id is Some {
        law_parts_hold_the_visible_documents(scope.workspace_id, scope.visible@);
    }
}

/// What is counted of a text is its characters that are not white space.
pub proof fn law_white_space_is_not_counted(s: Seq<char>)
    ensures
        visible_chars(s) == s.filter(|c: char| !text::is_white(c)).len(),
    decreases s.len(),
{
    reveal(Seq::filter);
    if s.len() > 0 {
        law_white_space_is_not_counted(s.drop_last());
    }
}

/// What is used of a text begins what is left of it when trimmed; it is all of that where it is not
/// too long, and else as long as may be.
pub proof fn law_used_text_begins_the_trimmed(raw: Seq<char>)
    ensures
        text::begins(text::trimmed(raw), used_text(raw)),
        used_text(raw).len() == if text::trimmed(raw).len() < SHARE_TEXT_MAX {
            text::trimmed(raw).len()
        } else {
            SHARE_TEXT_MAX as nat
        },
{
    let t = text::trimmed(raw);
    assert(t.subrange(0, t.len() as int) =~= t);
}

/// The index is asked for what was searched for, in the parts that were planned; tasks are asked
/// for behind a link of a project alone, and pages are turned behind one of a document alone.
pub proof fn law_index_is_asked_as_planned(
    q: Seq<char>,
    stem: Seq<char>,
    initials: bool,
    scopes: Seq<ScopeView>,
    document_share: bool,
    tasks: bool,
    offset: u32,
)
    ensures
        ({
            let input = index_input(q, stem, initials, scopes, document_share, tasks, offset);
            &&& input.q == q
            &&& input.scopes == scopes
            &&& input.stem == stem || initials
            &&& initials ==> input.stem.len() == 0
            &&& input.kind == HitKind::Task <==> tasks && !document_share
            &&& input.kind == HitKind::Document <==> !tasks || document_share
            &&& input.offset == offset || !document_share
            &&& !document_share ==> input.offset == 0 && input.limit == SHARE_SEARCH_LIMIT
            &&& document_share ==> input.limit == SHARE_MEILI_PAGE
        }),
{
}

/// A hit stands for a document or task exactly where it is one, in the workspace of the link, and
/// names it by its id.
pub proof fn law_hits_of_the_workspace_count(hit: MeiliHit, workspace_id: Uuid, id: Uuid)
    requires
        hit.resource_id@ == ids::uuid_text(id.0),
    ensures
        hit_key(hit, workspace_id) == if hit.workspace_id@ != ids::uuid_text(workspace_id.0) {
            None
        } else {
            match hit.kind {
                HitKind::Document => Some((false, id)),
                HitKind::Task => Some((true, id)),
                HitKind::Other => None,
            }
        },
{
    ids::law_uuid_round_trip(id.0);
}

/// Every document or task among the hits is kept once, from the hit that names it first and with
/// that hit's score, in the order of those hits; nothing else is kept. `at` says which hits those
/// are.
pub proof fn law_first_hits_are_kept(hits: Seq<MeiliHit>, workspace_id: Uuid) -> (at: Seq<int>)
    ensures
        at.len() == distinct_hits(hits, workspace_id).len(),
        forall|j: int, k: int| 0 <= j < k < at.len() ==> #[trigger] at[j] < #[trigger] at[k],
        forall|j: int|
            0 <= j < at.len() ==> {
                let kept = distinct_hits(hits, workspace_id)[j];
                &&& 0 <= #[trigger] at[j] < hits.len()
                &&& hit_key(hits[at[j]], workspace_id) == Some((kept.is_task, kept.id))
                &&& kept.score == hits[at[j]].score
            },
        forall|i: int|
            0 <= i < hits.len() ==> (at.contains(i) <==> hit_key(#[trigger] hits[i], workspace_id)
                is Some && forall|h: int|
                0 <= h < i ==> hit_key(#[trigger] hits[h], workspace_id) != hit_key(
                    hits[i],
                    workspace_id,
                )),
    decreases hits.len(),
{
    if hits.len() == 0 {
        Seq::empty()
    } else {
        let n = hits.len() - 1;
        let front = hits.drop_last();
        let before = distinct_hits(front, workspace_id);
        let was = law_first_hits_are_kept(front, workspace_id);
        let out = distinct_hits(hits, workspace_id);
        let key = hit_key(hits[n], workspace_id);
        assert(forall|i: int| 0 <= i < n ==> #[trigger] front[i] == hits[i]);
        let new = key is Some && !is_among(before, key->0);
        let at = if new {
            was.push(n)
        } else {
            was
        };
        assert(new <==> key is Some && forall|h: int|
            0 <= h < n ==> hit_key(#[trigger] hits[h], workspace_id) != key) by {
            if key is Some && is_among(before, key->0) {
                let k = key->0;
                let j = choose|j: int|
                    0 <= j < before.len() && (#[trigger] before[j]).is_task == k.0
                        && before[j].id == k.1;
                assert(hit_key(front[was[j]], workspace_id) == key);
                assert(hit_key(hits[was[j]], workspace_id) == key);
            }
            if key is Some && exists|h: int|
                0 <= h < n && hit_key(#[trigger] hits[h], workspace_id) == key {
                let h = choose|h: int|
                    0 <= h < n && hit_key(#[trigger] hits[h], workspace_id) == key;
                lemma_key_is_kept(front, workspace_id, h);
                assert(front[h] == hits[h]);
            }
        }
        assert forall|j: int| 0 <= j < at.len() implies {
            let kept = out[j];
            &&& 0 <= #[trigger] at[j] < hits.len()
            &&& hit_key(hits[at[j]], workspace_id) == Some((kept.is_task, kept.id))
            &&& kept.score == hits[at[j]].score
        } by {
            if j < was.len() {
                assert(at[j] == was[j]);
                assert(out[j] == before[j]);
                assert(front[was[j]] == hits[was[j]]);
            }
        }
        assert forall|j: int, k: int| 0 <= j < k < at.len() implies #[trigger] at[j]
            < #[trigger] at[k] by {
            assert(at[j] == was[j]);
            assert(0 <= was[j] < front.len());
            if k < was.len() {
                assert(at[k] == was[k]);
            }
        }
        assert forall|i: int| 0 <= i < hits.len() implies (at.contains(i) <==> hit_key(
            #[trigger] hits[i],
            workspace_id,
        ) is Some && forall|h: int|
            0 <= h < i ==> hit_key(#[trigger] hits[h], workspace_id) != hit_key(
                hits[i],
                workspace_id,
            )) by {
            if i < n {
                assert(front[i] == hits[i]);
                assert(at.contains(i) <==> was.contains(i)) by {
                    if was.contains(i) {
                        let j = was.index_of(i);
                        assert(at[j] == i);
                    }
                    if at.contains(i) {
                        let j = at.index_of(i);
                        if j < was.len() {
                            assert(was[j] == i);
                        }
                    }
                }
                assert((forall|h: int|
                    0 <= h < i ==> hit_key(#[trigger] front[h], workspace_id) != hit_key(
                        front[i],
                        workspace_id,
                    )) <==> (forall|h: int|
                    0 <= h < i ==> hit_key(#[trigger] hits[h], workspace_id) != hit_key(
                        hits[i],
                        workspace_id,
                    ))) by {
                    assert(forall|h: int| 0 <= h < i ==> front[h] == #[trigger] hits[h]);
                    assert(forall|h: int| 0 <= h < i ==> #[trigger] front[h] == hits[h]);
                }
            } else {
                if new {
                    assert(at[was.len() as int] == n);
                } else if at.contains(n) {
                    let j = at.index_of(n);
                    assert(was[j] < front.len());
                }
            }
        }
        at
    }
}

/// What a hit stands for is among what is kept.
proof fn lemma_key_is_kept(hits: Seq<MeiliHit>, workspace_id: Uuid, i: int)
    requires
        0 <= i < hits.len(),
        hit_key(hits[i], workspace_id) is Some,
    ensures
        is_among(distinct_hits(hits, workspace_id), hit_key(hits[i], workspace_id)->0),
    decreases hits.len(),
{
    let front = hits.drop_last();
    let before = distinct_hits(front, workspace_id);
    let out = distinct_hits(hits, workspace_id);
    let key = hit_key(hits[i], workspace_id)->0;
    if i < front.len() {
        lemma_key_is_kept(front, workspace_id, i);
        let j = choose|j: int|
            0 <= j < before.len() && (#[trigger] before[j]).is_task == key.0 && before[j].id
                == key.1;
        assert(out[j] == before[j]);
    } else {
        assert(hits.last() == hits[i]);
        if !is_among(before, key) {
            assert(out[before.len() as int].is_task == key.0);
        }
    }
}

/// The ids of the tasks among the hits are those of the hits that are tasks, in their order; those
/// of the documents likewise.
pub proof fn law_ids_are_those_of_their_kind(found: Seq<FoundHit>, tasks: bool)
    ensures
        ids_among(found, tasks) == found.filter(|hit: FoundHit| hit.is_task == tasks).map_values(
            |hit: FoundHit| hit.id,
        ),
    decreases found.len(),
{
    reveal(Seq::filter);
    let pred = |hit: FoundHit| hit.is_task == tasks;
    let id = |hit: FoundHit| hit.id;
    if found.len() == 0 {
        assert(ids_among(found, tasks) =~= found.filter(pred).map_values(id));
    } else {
        law_ids_are_those_of_their_kind(found.drop_last(), tasks);
        assert(ids_among(found, tasks) =~= found.filter(pred).map_values(id));
    }
}

/// Of hits that match alike, the one that came first stays first.
pub proof fn law_ranking_keeps_the_order_of_equals(hits: Seq<MeiliHit>, score: Score)
    ensures
        ranked(hits).filter(|hit: MeiliHit| hit.score == score) == hits.filter(
            |hit: MeiliHit| hit.score == score,
        ),
    decreases hits.len(),
{
    let alike = |hit: MeiliHit| hit.score == score;
    if hits.len() > 0 {
        let rest = hits.drop_first();
        law_ranking_keeps_the_order_of_equals(rest, score);
        lemma_placed_before_equals(hits[0], ranked(rest), score);
        assert(hits =~= seq![hits[0]] + rest);
        Seq::filter_distributes_over_add(seq![hits[0]], rest, alike);
    } else {
        assert(ranked(hits) =~= hits);
    }
}

proof fn lemma_placed_before_equals(hit: MeiliHit, sorted: Seq<MeiliHit>, score: Score)
    ensures
        placed(hit, sorted).filter(|h: MeiliHit| h.score == score) == seq![hit].filter(
            |h: MeiliHit| h.score == score,
        ) + sorted.filter(|h: MeiliHit| h.score == score),
    decreases sorted.len(),
{
    reveal(Seq::filter);
    let alike = |h: MeiliHit| h.score == score;
    if sorted.len() == 0 || sorted[0].score.0 <= hit.score.0 {
        Seq::filter_distributes_over_add(seq![hit], sorted, alike);
    } else {
        let rest = sorted.drop_first();
        let first = seq![sorted[0]];
        lemma_placed_before_equals(hit, rest, score);
        Seq::filter_distributes_over_add(first, placed(hit, rest), alike);
        Seq::filter_distributes_over_add(first, rest, alike);
        assert(sorted =~= first + rest);
        assert(seq![hit].drop_last() =~= Seq::<MeiliHit>::empty());
        assert(first.drop_last() =~= Seq::<MeiliHit>::empty());
        assert(seq![hit].last() == hit && first.last() == sorted[0]);
        assert(Seq::<MeiliHit>::empty().filter(alike) =~= Seq::<MeiliHit>::empty());
        if alike(hit) {
            assert(!alike(sorted[0]));
            assert(first.filter(alike) =~= Seq::<MeiliHit>::empty());
            assert(first.filter(alike) + (seq![hit].filter(alike) + rest.filter(alike))
                =~= seq![hit].filter(alike) + (first.filter(alike) + rest.filter(alike)));
        } else {
            assert(seq![hit].filter(alike) =~= Seq::<MeiliHit>::empty());
            assert(first.filter(alike) + (seq![hit].filter(alike) + rest.filter(alike))
                =~= seq![hit].filter(alike) + (first.filter(alike) + rest.filter(alike)));
        }
    }
}

/// A hit is answered as what the store has of it: under its kind and id, with its own title,
/// project and instant, in the workspace of the link, and with the score of the hit.
pub proof fn law_hit_is_answered_as_stored(
    hit: FoundHit,
    row: ShareSearchRow,
    workspace_id: Uuid,
    initials: bool,
    out: SearchItemOutput,
)
    requires
        shows_hit(hit, row, workspace_id, initials, out),
    ensures
        ids::uuid_of(out.id@) == Some(row.id.0),
        ids::uuid_of(out.workspace_id@) == Some(workspace_id.0),
        out.title@ == row.title@,
        out.score == hit.score,
        out.updated_at@ == time::rfc3339_millis(row.updated_at@ as i64),
        hit.is_task <==> out.kind@ == "task"@,
        !hit.is_task <==> out.kind@ == "document"@,
        hit.is_task <==> out.task_id is Some,
        !hit.is_task <==> out.document_id is Some,
        out.task_id matches Some(t) ==> t@ == out.id@,
        out.document_id matches Some(d) ==> d@ == out.id@,
        match (row.project_id, out.project_id) {
            (Some(p), Some(q)) => ids::uuid_of(q@) == Some(p.0),
            (None, None) => true,
            _ => false,
        },
        out.snippet is Some ==> !initials && (row.in_body is Some || row.in_title is Some),
        !initials && (row.in_body matches Some(p) && pieces_text(p@) != row.title@)
            ==> out.snippet is Some,
{
    ids::law_uuid_round_trip(row.id.0);
    ids::law_uuid_round_trip(workspace_id.0);
    if let Some(p) = row.project_id {
        ids::law_uuid_round_trip(p.0);
    }
    reveal_strlit("task");
    reveal_strlit("document");
    assert("task"@.len() != "document"@.len());
}

/// Pieces that are shown are those around the hit in the text, or else in the title, and say more
/// than the title alone.
pub proof fn law_shown_pieces_say_more_than_the_title(row: ShareSearchRow, initials: bool)
    ensures
        snippet_shown(row, initials) <==> !initials && match (row.in_body, row.in_title) {
            (Some(p), _) => pieces_text(p@) != row.title@,
            (None, Some(p)) => pieces_text(p@) != row.title@,
            (None, None) => false,
        },
        row.in_body is Some ==> pieces_of(row) == row.in_body,
        row.in_body is None ==> pieces_of(row) == row.in_title,
{
}

/// The answer to a search holds the hits that the store has a row for, tasks and documents alike,
/// in their order and up to as many as an answer may have, each under its id and with its score.
pub proof fn law_search_answers_the_visible_hits(
    found: &[FoundHit],
    rows: &[ShareSearchRow],
    workspace_id: Uuid,
    initials: bool,
    r: SearchListResponse,
)
    requires
        call_ensures(search_reply, (found, rows, workspace_id, initials), r),
    ensures
        ({
            let visible = found@.filter(|hit: FoundHit| has_row(rows@, hit));
            &&& r.items@.len() == if visible.len() < SHARE_SEARCH_LIMIT {
                visible.len()
            } else {
                SHARE_SEARCH_LIMIT as nat
            }
            &&& forall|i: int|
                0 <= i < r.items@.len() ==> {
                    let item = #[trigger] r.items@[i];
                    &&& ids::uuid_of(item.id@) == Some(visible[i].id.0)
                    &&& item.task_id is Some <==> visible[i].is_task
                    &&& item.document_id is Some <==> !visible[i].is_task
                    &&& item.score == visible[i].score
                }
        }),
{
    law_every_visible_hit_is_answered(found@, rows@);
    let visible = found@.filter(|hit: FoundHit| has_row(rows@, hit));
    let seen = seen_hits(found@, rows@);
    assert forall|i: int| 0 <= i < r.items@.len() implies {
        let item = #[trigger] r.items@[i];
        &&& ids::uuid_of(item.id@) == Some(visible[i].id.0)
        &&& item.task_id is Some <==> visible[i].is_task
        &&& item.document_id is Some <==> !visible[i].is_task
        &&& item.score == visible[i].score
    } by {
        assert(seen[i].0 == visible[i]);
        law_hit_is_answered_as_stored(
            seen[i].0,
            seen[i].1,
            workspace_id,
            initials,
            r.items@[i],
        );
    }
}

/// A search for something behind a link of a document asks the index for exactly the documents that
/// the link shows; where it shows none, or where there is no search, the index is not asked.
pub proof fn law_search_asks_for_the_visible_documents(
    q: &str,
    scope: &ShareScope,
    available: bool,
    r: SearchPlan,
)
    requires
        call_ensures(plan_search, (q, false, 0, scope, available), r),
        q@.len() > 0,
        scope.document_id is Some,
    ensures
        r is Empty <==> scope.visible@.len() == 0,
        r is Ask <==> scope.visible@.len() > 0 && available,
        r matches SearchPlan::Ask { scopes, document_share } ==> document_share && documents_of(
            scope_views(scopes@),
        ) == scope.visible@.map_values(|id: Uuid| ids::uuid_text(id.0)),
{
    law_search_stays_behind_the_link(*scope);
    let parts = searched_parts(*scope);
    let texts = scope.visible@.map_values(|id: Uuid| ids::uuid_text(id.0));
    assert(texts.len() == scope.visible@.len());
    if parts.len() == 0 {
        assert(documents_of(parts).len() == 0);
    } else {
        law_parts_hold_the_visible_documents(scope.workspace_id, scope.visible@);
        assert(parts[0].wiki_document_ids.len() >= 1);
        assert(documents_of(parts).len() >= 1);
    }
}

/// Every hit of a page is kept, behind those of the pages before, and a further page is asked for
/// at the place that the index named exactly where this one had hits, too few were found and a page
/// is left.
pub proof fn law_pages_of_hits_are_put_together(
    pages: &mut HitPages,
    page: Vec<MeiliHit>,
    next_offset: Option<u32>,
    r: Option<u32>,
)
    requires
        pages.pages < SHARE_MEILI_PAGES,
        call_ensures(HitPages::take_page, (pages, page, next_offset), r),
    ensures
        final(pages).hits@ == old(pages).hits@ + page@,
        final(pages).pages == old(pages).pages + 1,
        r is Some <==> next_offset is Some && page@.len() > 0 && old(pages).hits@.len()
            + page@.len() < SHARE_SEARCH_LIMIT && old(pages).pages + 1 < SHARE_MEILI_PAGES,
        r is Some ==> r == next_offset && final(pages).offset == r->0,
        r is None ==> final(pages).offset == old(pages).offset,
{
}

} // verus!
