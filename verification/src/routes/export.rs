//! The archive of what a user has written: `profile.json`, `comments.json`, `attachments.json`
//! and the files themselves.
//!
//! The texts of the three listings are put together here from the JSON of their elements, page by
//! page where the store hands out pages.

use vstd::prelude::*;
use vstd::string::*;
use crate::authz::RequestAuth;
use crate::error;
use crate::error::{AppError, DbFailure, ProblemCode};
use crate::header;
use crate::header::{Header, put};
use crate::ids;
use crate::ids::{Uuid, text_of};
use crate::rate_limit;
use crate::rate_limit::{RateLimiter, charge};
use crate::routes::account::{
    EXPORT_MAX_BYTES,
    EXPORT_MAX_FILES,
    USER_EXPORT_PER_USER,
    USER_EXPORT_WINDOW,
};
use crate::text;
use crate::text::{join2, join4, lines, same};
use crate::time;
use crate::time::Timestamp;

verus! {

/// Why an export ended early.
#[derive(Clone, Copy, Debug, PartialEq, Eq, Structural)]
pub enum ExportFailure {
    /// The client went away.
    Closed,
    Db,
    Storage,
    Zip,
    Encode,
}

/// The profile of a user, as the store keeps it.
#[derive(Debug)]
pub struct ExportProfile {
    pub id: Uuid,
    pub email: String,
    pub given_name: String,
    pub family_name: Option<String>,
    pub locale: String,
    pub timezone: String,
    pub week_starts_on: i32,
}

/// A comment of the user, as the store keeps it.
#[derive(Debug)]
pub struct ExportComment {
    pub id: Uuid,
    pub workspace_id: Uuid,
    pub document_id: Option<Uuid>,
    pub task_id: Option<Uuid>,
    pub body: String,
    pub created_at: Timestamp,
}

/// A file of the user, as the store keeps it.
#[derive(Debug)]
pub struct ExportAttachment {
    pub id: Uuid,
    pub workspace_id: Uuid,
    pub name: String,
    pub mime: String,
    pub size_bytes: Option<i64>,
    pub scan_status: String,
    pub storage_key: String,
}

/// The members of `profile.json`.
#[derive(Debug)]
pub struct ProfileJson {
    pub id: String,
    pub email: String,
    pub given_name: String,
    pub family_name: Option<String>,
    pub locale: String,
    pub timezone: String,
    pub week_starts_on: i32,
}

/// The members of an element of `comments.json`.
#[derive(Debug)]
pub struct CommentJson {
    pub id: String,
    pub workspace_id: String,
    pub document_id: Option<String>,
    pub task_id: Option<String>,
    pub body: String,
    pub created_at: String,
}

/// The members of an element of `attachments.json`.
#[derive(Debug)]
pub struct AttachmentJson {
    pub id: String,
    pub workspace_id: String,
    pub name: String,
    pub mime: String,
    pub size_bytes: Option<i64>,
    pub scan_status: String,
}

/// The members of `profile.json`.
pub fn profile_json(profile: ExportProfile) -> (r: ProfileJson)
    ensures
        r.id@ == ids::uuid_text(profile.id.0),
        r.email == profile.email,
        r.given_name == profile.given_name,
        r.family_name == profile.family_name,
        r.locale == profile.locale,
        r.timezone == profile.timezone,
        r.week_starts_on == profile.week_starts_on,
{
    ProfileJson {
        id: profile.id.text(),
        email: profile.email,
        given_name: profile.given_name,
        family_name: profile.family_name,
        locale: profile.locale,
        timezone: profile.timezone,
        week_starts_on: profile.week_starts_on,
    }
}

/// The members of an element of `comments.json`.
pub fn comment_json(comment: &ExportComment) -> (r: CommentJson)
    ensures
        r.id@ == ids::uuid_text(comment.id.0),
        r.workspace_id@ == ids::uuid_text(comment.workspace_id.0),
        error::text_view(r.document_id) == ids::opt_text(comment.document_id),
        error::text_view(r.task_id) == ids::opt_text(comment.task_id),
        r.body == comment.body,
        r.created_at@ == time::pattern_text(comment.created_at@ as i64),
{
    CommentJson {
        id: comment.id.text(),
        workspace_id: comment.workspace_id.text(),
        document_id: text_of(comment.document_id),
        task_id: text_of(comment.task_id),
        body: comment.body.clone(),
        created_at: comment.created_at.js_iso(),
    }
}

/// The members of an element of `attachments.json`.
pub fn attachment_json(row: &ExportAttachment) -> (r: AttachmentJson)
    ensures
        r.id@ == ids::uuid_text(row.id.0),
        r.workspace_id@ == ids::uuid_text(row.workspace_id.0),
        r.name == row.name,
        r.mime == row.mime,
        r.size_bytes == row.size_bytes,
        r.scan_status == row.scan_status,
{
    AttachmentJson {
        id: row.id.text(),
        workspace_id: row.workspace_id.text(),
        name: row.name.clone(),
        mime: row.mime.clone(),
        size_bytes: row.size_bytes,
        scan_status: row.scan_status.clone(),
    }
}

/// A text with every line moved in by two spaces, without a newline at its end.
pub open spec fn indented(s: Seq<char>) -> Seq<char> {
    text::joined(text::lines_of(s).map_values(|line: Seq<char>| "  "@ + line), "\n"@)
}

/// The JSON of an element of a listing, moved in by two spaces.
pub fn pretty_element(json: &str) -> (r: String)
    ensures
        r@ == indented(json@),
{
    let all = lines(json);
    let ghost wanted = text::lines_of(json@).map_values(|line: Seq<char>| "  "@ + line);
    let mut moved: Vec<String> = Vec::new();
    let mut i: usize = 0;
    assert(text::views(moved@) == wanted.subrange(0, 0));
    assert(all@.len() == text::views(all@).len());
    while i < all.len()
        invariant
            i <= all@.len(),
            text::views(all@) == text::lines_of(json@),
            wanted == text::lines_of(json@).map_values(|line: Seq<char>| "  "@ + line),
            text::views(moved@) == wanted.subrange(0, i as int),
        decreases all.len() - i,
    {
        let ghost before = moved@;
        let line = join2("  ", all[i].as_str());
        proof {
            assert(text::views(all@)[i as int] == all@[i as int]@);
            assert(wanted[i as int] == line@);
            assert(wanted.subrange(0, i + 1) == wanted.subrange(0, i as int).push(
                wanted[i as int],
            ));
        }
        moved.push(line);
        assert(text::views(moved@) == text::views(before).push(line@));
        i = i + 1;
    }
    assert(wanted.subrange(0, i as int) == wanted);
    text::join_all(moved.as_slice(), "\n")
}

/// The text of `profile.json`.
pub fn profile_file(json: &str) -> (r: String)
    ensures
        r@ == json@ + "\n"@,
{
    join2(json, "\n")
}

/// Elements of a listing with what goes before each; `first` where none was written yet.
pub open spec fn chunk_text(first: bool, elements: Seq<Seq<char>>) -> Seq<char>
    decreases elements.len(),
{
    if elements.len() == 0 {
        Seq::empty()
    } else {
        chunk_text(first, elements.drop_last()) + (if first && elements.len() == 1 {
            "[\n"@
        } else {
            ",\n"@
        }) + elements.last()
    }
}

/// What ends a listing; `first` where no element was written.
pub open spec fn closing(first: bool) -> Seq<char> {
    if first {
        "[]\n"@
    } else {
        "\n]\n"@
    }
}

/// A whole listing.
pub open spec fn array_text(elements: Seq<Seq<char>>) -> Seq<char> {
    chunk_text(true, elements) + closing(elements.len() == 0)
}

/// Elements of a listing with what goes before each.
pub fn write_chunk(first: bool, elements: &[String]) -> (r: String)
    ensures
        r@ == chunk_text(first, text::views(elements@)),
{
    let mut out: String = String::new();
    let ghost all = text::views(elements@);
    let mut i: usize = 0;
    assert(all.subrange(0, 0).len() == 0);
    while i < elements.len()
        invariant
            i <= elements@.len(),
            all == text::views(elements@),
            out@ == chunk_text(first, all.subrange(0, i as int)),
        decreases elements.len() - i,
    {
        proof {
            let next = all.subrange(0, i + 1);
            assert(next.drop_last() == all.subrange(0, i as int));
            assert(next.last() == elements@[i as int]@);
        }
        if first && i == 0 {
            out.append("[\n");
        } else {
            out.append(",\n");
        }
        out.append(elements[i].as_str());
        i = i + 1;
    }
    assert(all.subrange(0, i as int) == all);
    out
}

/// What ends a listing.
pub fn write_closing(first: bool) -> (r: &'static str)
    ensures
        r@ == closing(first),
{
    if first {
        "[]\n"
    } else {
        "\n]\n"
    }
}

/// The text of `attachments.json`.
pub fn attachment_listing(elements: &[String]) -> (r: String)
    ensures
        r@ == array_text(text::views(elements@)),
{
    let chunk = write_chunk(true, elements);
    assert(text::views(elements@).len() == elements@.len());
    join2(chunk.as_str(), write_closing(elements.len() == 0))
}

/// Where the export of the comments stands.
#[derive(Debug)]
pub struct CommentExport {
    pub workspaces: Vec<Uuid>,
    /// The workspace whose comments are next.
    pub at: usize,
    /// The last comment that was written of it.
    pub after: Option<(Timestamp, Uuid)>,
    /// No comment was written yet.
    pub first: bool,
    /// The comments of a full page.
    pub page_size: usize,
}

impl CommentExport {
    pub fn new(workspaces: Vec<Uuid>, page_size: usize) -> (r: Self)
        ensures
            r == (CommentExport { workspaces, at: 0, after: None, first: true, page_size }),
    {
        CommentExport { workspaces, at: 0, after: None, first: true, page_size }
    }

    /// The page to fetch next: the comments of a workspace behind one of them.
    pub open spec fn awaited(&self) -> Option<(Uuid, Option<(Timestamp, Uuid)>)> {
        if self.at < self.workspaces@.len() {
            Some((self.workspaces@[self.at as int], self.after))
        } else {
            None
        }
    }

    /// The page to fetch next; none where all comments were written.
    pub fn request(&self) -> (r: Option<(Uuid, Option<(Timestamp, Uuid)>)>)
        ensures
            r == self.awaited(),
    {
        if self.at < self.workspaces.len() {
            Some((self.workspaces[self.at], self.after))
        } else {
            None
        }
    }

    /// Where the export stands behind a page: in the same workspace behind a full one, else at
    /// the start of the next.
    pub open spec fn behind(&self, page: Seq<ExportComment>) -> CommentExport {
        if page.len() > 0 && page.len() == self.page_size {
            CommentExport {
                after: Some((page.last().created_at, page.last().id)),
                first: false,
                ..*self
            }
        } else {
            CommentExport {
                at: (self.at + 1) as usize,
                after: None,
                first: self.first && page.len() == 0,
                ..*self
            }
        }
    }

    /// Takes a page, with the JSON of its elements, and hands out what is written of it.
    pub fn take_page(&mut self, page: &[ExportComment], elements: &[String]) -> (r: Option<String>)
        requires
            old(self).awaited() is Some,
            elements@.len() == page@.len(),
        ensures
            *final(self) == old(self).behind(page@),
            match r {
                None => page@.len() == 0,
                Some(chunk) => page@.len() > 0 && chunk@ == chunk_text(
                    old(self).first,
                    text::views(elements@),
                ),
            },
    {
        let count: usize = self.workspaces.len();
        assert(self.at < count);
        if page.len() == 0 {
            self.at = self.at + 1;
            self.after = None;
            return None;
        }
        let chunk = write_chunk(self.first, elements);
        self.first = false;
        if page.len() == self.page_size {
            let last = &page[page.len() - 1];
            self.after = Some((last.created_at, last.id));
        } else {
            self.at = self.at + 1;
            self.after = None;
        }
        Some(chunk)
    }
}

/// A file is packed unless the scan found a virus in it.
pub open spec fn packed(row: ExportAttachment) -> bool {
    row.scan_status@ != "infected"@
}

/// The bytes that the files of an export declare; a missing or negative size counts nothing.
pub open spec fn declared_size(rows: Seq<ExportAttachment>) -> nat
    decreases rows.len(),
{
    if rows.len() == 0 {
        0
    } else {
        declared_size(rows.drop_last()) + match rows.last().size_bytes {
            Some(n) => if packed(rows.last()) && n > 0 {
                n as nat
            } else {
                0
            },
            None => 0,
        }
    }
}

/// Refuses an export that does not fit a 32-bit archive, before any of it is sent.
pub fn check_export_size(rows: &[ExportAttachment]) -> (r: Result<(), AppError>)
    ensures
        r is Ok <==> declared_size(rows@) <= EXPORT_MAX_BYTES && rows@.len() <= EXPORT_MAX_FILES,
        r is Err ==> error::refused(r, ProblemCode::Internal),
{
    let mut sum: u128 = 0;
    let mut i: usize = 0;
    assert(rows@.subrange(0, 0).len() == 0);
    while i < rows.len()
        invariant
            i <= rows@.len(),
            sum == declared_size(rows@.subrange(0, i as int)),
            sum <= i * 0x7fff_ffff_ffff_ffff,
        decreases rows.len() - i,
    {
        proof {
            let next = rows@.subrange(0, i + 1);
            assert(next.drop_last() == rows@.subrange(0, i as int));
            assert(next.last() == rows@[i as int]);
            assert(i * 0x7fff_ffff_ffff_ffff <= 0xffff_ffff_ffff_ffff * 0x7fff_ffff_ffff_ffff)
                by (nonlinear_arith)
                requires
                    i <= 0xffff_ffff_ffff_ffff,
            ;
        }
        if !same(rows[i].scan_status.as_str(), "infected") {
            if let Some(n) = rows[i].size_bytes {
                if n > 0 {
                    sum = sum + n as u128;
                }
            }
        }
        i = i + 1;
    }
    assert(rows@.subrange(0, i as int) == rows@);
    if sum > EXPORT_MAX_BYTES as u128 || rows.len() > EXPORT_MAX_FILES {
        Err(AppError::internal())
    } else {
        Ok(())
    }
}

/// The first file from `at` on that is packed.
pub open spec fn next_packed(rows: Seq<ExportAttachment>, at: int) -> Option<int>
    decreases rows.len() - at,
{
    if at >= rows.len() {
        None
    } else if packed(rows[at]) {
        Some(at)
    } else {
        next_packed(rows, at + 1)
    }
}

/// The first file from `at` on that is packed.
pub fn next_file(rows: &[ExportAttachment], at: usize) -> (r: Option<usize>)
    ensures
        match r {
            Some(i) => next_packed(rows@, at as int) == Some(i as int) && i < rows@.len(),
            None => next_packed(rows@, at as int) is None,
        },
{
    let mut i: usize = at;
    while i < rows.len()
        invariant
            next_packed(rows@, at as int) == next_packed(rows@, i as int),
        decreases rows.len() - i,
    {
        if !same(rows[i].scan_status.as_str(), "infected") {
            return Some(i);
        }
        i = i + 1;
    }
    None
}

/// What is done for one file.
#[derive(Debug)]
pub enum FileStep {
    /// The object is gone.
    Skip,
    /// An entry without bytes.
    Empty { name: String },
    /// The bytes from the start to `last`.
    Stream { name: String, last: u64 },
}

/// The name of the entry of a file.
pub open spec fn entry_name(id: Uuid, safe_name: Seq<char>) -> Seq<char> {
    "attachments/"@ + ids::uuid_text(id.0) + "-"@ + safe_name
}

/// Decides what is done for a file, by what the storage says of its size. `safe_name` is the name
/// of the file as an archive may hold it.
pub fn file_step(row: &ExportAttachment, size: Result<Option<u64>, DbFailure>, safe_name: &str) -> (r:
    Result<FileStep, ExportFailure>)
    ensures
        match size {
            Err(_) => r == Err::<FileStep, _>(ExportFailure::Storage),
            Ok(None) => r == Ok::<_, ExportFailure>(FileStep::Skip),
            Ok(Some(n)) => if n == 0 {
                r matches Ok(FileStep::Empty { name }) && name@ == entry_name(row.id, safe_name@)
            } else {
                r matches Ok(FileStep::Stream { name, last }) && name@ == entry_name(
                    row.id,
                    safe_name@,
                ) && last == n - 1
            },
        },
{
    match size {
        Err(_) => Err(ExportFailure::Storage),
        Ok(None) => Ok(FileStep::Skip),
        Ok(Some(n)) => {
            let id = row.id.text();
            let name = join4("attachments/", id.as_str(), "-", safe_name);
            if n == 0 {
                Ok(FileStep::Empty { name })
            } else {
                Ok(FileStep::Stream { name, last: n - 1 })
            }
        },
    }
}

/// A file that could not be opened is passed over where it is gone by now, or where that cannot
/// be asked; else the export fails.
pub fn open_failed(size: Result<Option<u64>, DbFailure>) -> (r: Result<(), ExportFailure>)
    ensures
        r == match size {
            Ok(Some(_)) => Err::<(), _>(ExportFailure::Storage),
            _ => Ok(()),
        },
{
    match size {
        Ok(Some(_)) => Err(ExportFailure::Storage),
        _ => Ok(()),
    }
}

/// What sending bytes comes to: none are not sent at all.
pub fn sent(len: usize, delivered: bool) -> (r: Result<(), ExportFailure>)
    ensures
        r == if len == 0 || delivered {
            Ok(())
        } else {
            Err::<(), _>(ExportFailure::Closed)
        },
{
    if len == 0 || delivered {
        Ok(())
    } else {
        Err(ExportFailure::Closed)
    }
}

/// Whether the response is broken off, so that no client takes a part for the whole: on every
/// failure but the one that the client caused.
pub fn breaks_off(outcome: Result<(), ExportFailure>) -> (r: bool)
    ensures
        r == (outcome is Err && outcome != Err::<(), _>(ExportFailure::Closed)),
{
    match outcome {
        Ok(_) => false,
        Err(ExportFailure::Closed) => false,
        Err(_) => true,
    }
}

/// Charges an export to its user.
pub fn export_limit(limiter: &mut RateLimiter, auth: &RequestAuth, now: u64) -> (r: Result<
    (),
    AppError,
>)
    requires
        old(limiter).wf(),
    ensures
        final(limiter).wf(),
        rate_limit::charged_once(
            old(limiter)@,
            final(limiter)@,
            "user-export:"@ + ids::uuid_text(auth.user_id.0),
            USER_EXPORT_PER_USER,
            USER_EXPORT_WINDOW,
            now,
            error::told(r),
        ),
{
    let user = auth.user_id.text();
    let key = join2("user-export:", user.as_str());
    charge(limiter, key.as_str(), USER_EXPORT_PER_USER, USER_EXPORT_WINDOW, now)
}

/// What the store hands out for an export.
#[derive(Debug)]
pub struct ExportRows {
    pub profile: ExportProfile,
    pub workspaces: Vec<Uuid>,
    pub attachments: Vec<ExportAttachment>,
}

/// Puts together what the store hands out: a user who is gone has no export, and one that is too
/// large is refused.
pub fn export_rows(
    profile: Result<Option<ExportProfile>, DbFailure>,
    workspaces: Result<Vec<Uuid>, DbFailure>,
    attachments: Result<Vec<ExportAttachment>, DbFailure>,
) -> (r: Result<ExportRows, AppError>)
    ensures
        match (profile, workspaces, attachments) {
            (Err(_), _, _) => error::refused(r, ProblemCode::Internal),
            (Ok(None), _, _) => error::refused(r, ProblemCode::NotFound),
            (Ok(Some(p)), Ok(w), Ok(a)) => if declared_size(a@) <= EXPORT_MAX_BYTES && a@.len()
                <= EXPORT_MAX_FILES {
                r == Ok::<_, AppError>(ExportRows { profile: p, workspaces: w, attachments: a })
            } else {
                error::refused(r, ProblemCode::Internal)
            },
            _ => error::refused(r, ProblemCode::Internal),
        },
{
    let profile = match profile {
        Err(_) => {
            return Err(AppError::internal());
        },
        Ok(None) => {
            return Err(AppError::from_code(ProblemCode::NotFound));
        },
        Ok(Some(p)) => p,
    };
    let workspaces = match workspaces {
        Err(_) => {
            return Err(AppError::internal());
        },
        Ok(w) => w,
    };
    let attachments = match attachments {
        Err(_) => {
            return Err(AppError::internal());
        },
        Ok(a) => a,
    };
    match check_export_size(attachments.as_slice()) {
        Err(e) => Err(e),
        Ok(_) => Ok(ExportRows { profile, workspaces, attachments }),
    }
}

/// The headers of an export.
pub fn export_headers() -> (r: Vec<Header>)
    ensures
        header::header_views(r@) == seq![
            ("content-type"@, "application/zip"@),
            ("content-disposition"@, "attachment; filename=\"fvoci-export.zip\""@),
            ("cache-control"@, "no-store"@),
        ],
{
    let mut headers: Vec<Header> = Vec::new();
    assert(header::header_views(headers@) == Seq::<(Seq<char>, Seq<char>)>::empty());
    put(&mut headers, "content-type", "application/zip");
    put(&mut headers, "content-disposition", "attachment; filename=\"fvoci-export.zip\"");
    put(&mut headers, "cache-control", "no-store");
    headers
}

/// All elements of the pages.
pub open spec fn all_elements(pages: Seq<Seq<Seq<char>>>) -> Seq<Seq<char>>
    decreases pages.len(),
{
    if pages.len() == 0 {
        Seq::empty()
    } else {
        all_elements(pages.drop_last()) + pages.last()
    }
}

/// What is written of the pages, one chunk after the other.
pub open spec fn written(pages: Seq<Seq<Seq<char>>>) -> Seq<char>
    decreases pages.len(),
{
    if pages.len() == 0 {
        Seq::empty()
    } else {
        written(pages.drop_last()) + chunk_text(
            all_elements(pages.drop_last()).len() == 0,
            pages.last(),
        )
    }
}

/// A chunk behind another is the chunk of both.
pub(crate) proof fn lemma_chunks_join(a: Seq<Seq<char>>, b: Seq<Seq<char>>)
    ensures
        chunk_text(true, a + b) == chunk_text(true, a) + chunk_text(a.len() == 0, b),
    decreases b.len(),
{
    if b.len() == 0 {
        assert(a + b =~= a);
        assert(chunk_text(true, a) + Seq::<char>::empty() =~= chunk_text(true, a));
    } else {
        lemma_chunks_join(a, b.drop_last());
        assert((a + b).drop_last() =~= a + b.drop_last());
        let x = chunk_text(true, a);
        let y = chunk_text(a.len() == 0, b.drop_last());
        let sep = if a.len() == 0 && b.len() == 1 {
            "[\n"@
        } else {
            ",\n"@
        };
        assert((x + y) + sep + b.last() =~= x + (y + sep + b.last()));
    }
}

/// However the comments come in pages, what is written of them is the listing of all of them.
pub proof fn law_pages_make_one_listing(pages: Seq<Seq<Seq<char>>>)
    ensures
        written(pages) + closing(all_elements(pages).len() == 0) == array_text(
            all_elements(pages),
        ),
    decreases pages.len(),
{
    lemma_written(pages);
}

proof fn lemma_written(pages: Seq<Seq<Seq<char>>>)
    ensures
        written(pages) == chunk_text(true, all_elements(pages)),
    decreases pages.len(),
{
    if pages.len() > 0 {
        lemma_written(pages.drop_last());
        lemma_chunks_join(all_elements(pages.drop_last()), pages.last());
    }
}

/// Where an export of comments stands behind some pages, `first` tells whether any of them had an
/// element.
pub open spec fn stands_behind(start: CommentExport, pages: Seq<Seq<ExportComment>>) -> CommentExport
    decreases pages.len(),
{
    if pages.len() == 0 {
        start
    } else {
        stands_behind(start, pages.drop_last()).behind(pages.last())
    }
}

/// The chunks of an export begin a listing exactly once: before the first comment of all.
pub proof fn law_listing_begins_once(start: CommentExport, pages: Seq<Seq<ExportComment>>)
    requires
        start.first,
    ensures
        stands_behind(start, pages).first == (forall|i: int|
            0 <= i < pages.len() ==> #[trigger] pages[i].len() == 0),
    decreases pages.len(),
{
    if pages.len() > 0 {
        let before = pages.drop_last();
        law_listing_begins_once(start, before);
        assert(forall|i: int| 0 <= i < before.len() ==> before[i] == #[trigger] pages[i]);
        assert(pages.last() == pages[pages.len() - 1]);
        if stands_behind(start, before).first {
            assert forall|i: int| 0 <= i < pages.len() && pages.last().len() == 0 implies
                #[trigger] pages[i].len() == 0 by {
                if i < before.len() {
                    assert(before[i].len() == 0);
                }
            }
        } else {
            let i = choose|i: int| 0 <= i < before.len() && #[trigger] before[i].len() != 0;
            assert(pages[i].len() != 0);
        }
    }
}

/// No file that the scan found a virus in is packed: the export goes on at a file that is packed,
/// and every file that it passes over is not.
pub proof fn law_infected_files_stay_out(rows: Seq<ExportAttachment>, at: int)
    requires
        0 <= at,
    ensures
        match next_packed(rows, at) {
            Some(i) => at <= i < rows.len() && packed(rows[i]) && forall|j: int|
                at <= j < i ==> !packed(#[trigger] rows[j]),
            None => forall|j: int| at <= j < rows.len() ==> !packed(#[trigger] rows[j]),
        },
    decreases rows.len() - at,
{
    if at < rows.len() && !packed(rows[at]) {
        law_infected_files_stay_out(rows, at + 1);
    }
}

/// A listing without elements is `[]`; one with elements has them between brackets, each from the
/// next by a comma and a new line.
pub proof fn law_listing_is_a_bracketed_list(elements: Seq<Seq<char>>)
    ensures
        array_text(elements) == if elements.len() == 0 {
            "[]\n"@
        } else {
            "[\n"@ + text::joined(elements, ",\n"@) + "\n]\n"@
        },
{
    if elements.len() == 0 {
        assert(array_text(elements) =~= "[]\n"@);
    } else {
        lemma_chunk_is_joined(elements);
    }
}

proof fn lemma_chunk_is_joined(elements: Seq<Seq<char>>)
    requires
        elements.len() > 0,
    ensures
        chunk_text(true, elements) == "[\n"@ + text::joined(elements, ",\n"@),
    decreases elements.len(),
{
    let front = elements.drop_last();
    if front.len() > 0 {
        lemma_chunk_is_joined(front);
        assert(chunk_text(true, elements) =~= "[\n"@ + text::joined(elements, ",\n"@));
    } else {
        assert(chunk_text(true, front) =~= Seq::<char>::empty());
        assert(chunk_text(true, elements) =~= "[\n"@ + elements.last());
        assert(text::joined(elements, ",\n"@) =~= elements.last());
    }
}

/// Where a comment stands among those of its workspace: by its instant, and at one instant by its
/// id.
pub open spec fn stands_before(a: (Timestamp, Uuid), b: (Timestamp, Uuid)) -> bool {
    a.0@ < b.0@ || (a.0@ == b.0@ && a.1.0 < b.1.0)
}

/// Comments in the order in which the store hands them out, none twice.
pub open spec fn in_order(comments: Seq<ExportComment>) -> bool {
    forall|i: int, j: int|
        0 <= i < j < comments.len() ==> stands_before(
            ((#[trigger] comments[i]).created_at, comments[i].id),
            ((#[trigger] comments[j]).created_at, comments[j].id),
        )
}

/// The comments behind a place, from the start where there is none.
pub open spec fn comments_behind(
    comments: Seq<ExportComment>,
    after: Option<(Timestamp, Uuid)>,
) -> Seq<ExportComment> {
    match after {
        None => comments,
        Some(place) => comments.filter(
            |c: ExportComment| stands_before(place, (c.created_at, c.id)),
        ),
    }
}

/// The store's answer to a request: the first comments of the workspace behind the place, a page of
/// them at most.
pub open spec fn page_of(
    store: spec_fn(Uuid) -> Seq<ExportComment>,
    request: (Uuid, Option<(Timestamp, Uuid)>),
    page_size: usize,
) -> Seq<ExportComment> {
    let rest = comments_behind(store(request.0), request.1);
    if rest.len() <= page_size {
        rest
    } else {
        rest.subrange(0, page_size as int)
    }
}

/// The pages are the store's answers to what the export asked for in turn.
pub open spec fn pages_answer(
    start: CommentExport,
    store: spec_fn(Uuid) -> Seq<ExportComment>,
    pages: Seq<Seq<ExportComment>>,
) -> bool
    decreases pages.len(),
{
    if pages.len() == 0 {
        true
    } else {
        let front = pages.drop_last();
        &&& pages_answer(start, store, front)
        &&& stands_behind(start, front).awaited() matches Some(request) && pages.last() == page_of(
            store,
            request,
            start.page_size,
        )
    }
}

/// All comments of the pages, in turn.
pub open spec fn all_comments(pages: Seq<Seq<ExportComment>>) -> Seq<ExportComment>
    decreases pages.len(),
{
    if pages.len() == 0 {
        Seq::empty()
    } else {
        all_comments(pages.drop_last()) + pages.last()
    }
}

/// All comments of the workspaces, in turn.
pub open spec fn comments_of(
    store: spec_fn(Uuid) -> Seq<ExportComment>,
    workspaces: Seq<Uuid>,
) -> Seq<ExportComment>
    decreases workspaces.len(),
{
    if workspaces.len() == 0 {
        Seq::empty()
    } else {
        comments_of(store, workspaces.drop_last()) + store(workspaces.last())
    }
}

/// Behind the comment at `k - 1` are the comments from `k` on.
proof fn lemma_behind_a_comment(comments: Seq<ExportComment>, k: int)
    requires
        in_order(comments),
        0 < k <= comments.len(),
    ensures
        comments_behind(
            comments,
            Some((comments[k - 1].created_at, comments[k - 1].id)),
        ) == comments.subrange(k, comments.len() as int),
    decreases comments.len(),
{
    reveal(Seq::filter);
    let place = (comments[k - 1].created_at, comments[k - 1].id);
    let pred = |c: ExportComment| stands_before(place, (c.created_at, c.id));
    let n = comments.len() as int;
    let front = comments.drop_last();
    if k == n {
        assert forall|i: int| 0 <= i < comments.len() implies !pred(#[trigger] comments[i]) by {
            if i < k - 1 {
                assert(stands_before(
                    (comments[i].created_at, comments[i].id),
                    (comments[k - 1].created_at, comments[k - 1].id),
                ));
            }
        }
        assert(comments.all(|c: ExportComment| !pred(c)));
        lemma_none_picked(comments, pred);
        assert(comments.filter(pred) =~= comments.subrange(k, n));
    } else {
        assert forall|i: int, j: int| 0 <= i < j < front.len() implies stands_before(
            ((#[trigger] front[i]).created_at, front[i].id),
            ((#[trigger] front[j]).created_at, front[j].id),
        ) by {
            assert(front[i] == comments[i]);
            assert(front[j] == comments[j]);
        }
        assert(front[k - 1] == comments[k - 1]);
        lemma_behind_a_comment(front, k);
        assert(stands_before(
            (comments[k - 1].created_at, comments[k - 1].id),
            (comments[n - 1].created_at, comments[n - 1].id),
        ));
        assert(pred(comments.last()));
        assert(comments.filter(pred) == front.filter(pred).push(comments.last()));
        assert(front.subrange(k, n - 1).push(comments.last()) =~= comments.subrange(k, n));
    }
}

/// A condition that no comment meets picks none.
proof fn lemma_none_picked(comments: Seq<ExportComment>, pred: spec_fn(ExportComment) -> bool)
    requires
        forall|i: int| 0 <= i < comments.len() ==> !pred(#[trigger] comments[i]),
    ensures
        comments.filter(pred).len() == 0,
    decreases comments.len(),
{
    reveal(Seq::filter);
    if comments.len() > 0 {
        let front = comments.drop_last();
        assert forall|i: int| 0 <= i < front.len() implies !pred(#[trigger] front[i]) by {
            assert(front[i] == comments[i]);
        }
        lemma_none_picked(front, pred);
        assert(!pred(comments[comments.len() - 1]));
    }
}

/// How far an export has come behind pages that the store answered: past `k` comments of the
/// workspace it is at, and past all of those before.
spec fn came_to(
    start: CommentExport,
    store: spec_fn(Uuid) -> Seq<ExportComment>,
    pages: Seq<Seq<ExportComment>>,
    k: int,
) -> bool {
    let now = stands_behind(start, pages);
    let done = comments_of(store, start.workspaces@.subrange(0, now.at as int));
    &&& now.workspaces == start.workspaces
    &&& now.page_size == start.page_size
    &&& now.at <= start.workspaces@.len()
    &&& if now.at == start.workspaces@.len() {
        k == 0 && all_comments(pages) == done
    } else {
        let here = store(start.workspaces@[now.at as int]);
        &&& 0 <= k <= here.len()
        &&& now.after == if k == 0 {
            None
        } else {
            Some((here[k - 1].created_at, here[k - 1].id))
        }
        &&& all_comments(pages) == done + here.subrange(0, k)
    }
    &&& pages.len() <= now.at + all_comments(pages).len()
}

/// What is behind the place where an export stands in a workspace.
proof fn lemma_rest_behind(comments: Seq<ExportComment>, k: int)
    requires
        in_order(comments),
        0 <= k <= comments.len(),
    ensures
        comments_behind(
            comments,
            if k == 0 {
                None
            } else {
                Some((comments[k - 1].created_at, comments[k - 1].id))
            },
        ) == comments.subrange(k, comments.len() as int),
{
    if k > 0 {
        lemma_behind_a_comment(comments, k);
    } else {
        assert(comments.subrange(0, comments.len() as int) =~= comments);
    }
}

/// A full page takes an export on in its workspace.
proof fn lemma_full_page(
    start: CommentExport,
    store: spec_fn(Uuid) -> Seq<ExportComment>,
    front: Seq<Seq<ExportComment>>,
    page: Seq<ExportComment>,
    k: int,
)
    requires
        start.page_size > 0,
        came_to(start, store, front, k),
        stands_behind(start, front).at < start.workspaces@.len(),
        page.len() == start.page_size,
        ({
            let here = store(start.workspaces@[stands_behind(start, front).at as int]);
            k + page.len() <= here.len() && page == here.subrange(k, k + page.len())
        }),
    ensures
        came_to(start, store, front.push(page), k + page.len()),
{
    let pages = front.push(page);
    assert(pages.drop_last() =~= front);
    let before = stands_behind(start, front);
    let ws = start.workspaces@;
    let here = store(ws[before.at as int]);
    let m = k + page.len();
    assert(page.last() == here[m - 1]);
    assert(here.subrange(0, k) + page =~= here.subrange(0, m));
    let done = comments_of(store, ws.subrange(0, before.at as int));
    assert((done + here.subrange(0, k)) + page =~= done + (here.subrange(0, k) + page));
}

/// A page that is not full takes an export to the next workspace.
proof fn lemma_last_page(
    start: CommentExport,
    store: spec_fn(Uuid) -> Seq<ExportComment>,
    front: Seq<Seq<ExportComment>>,
    page: Seq<ExportComment>,
    k: int,
)
    requires
        start.page_size > 0,
        came_to(start, store, front, k),
        stands_behind(start, front).at < start.workspaces@.len(),
        page.len() < start.page_size,
        ({
            let here = store(start.workspaces@[stands_behind(start, front).at as int]);
            page == here.subrange(k, here.len() as int)
        }),
    ensures
        came_to(start, store, front.push(page), 0),
{
    let pages = front.push(page);
    assert(pages.drop_last() =~= front);
    let before = stands_behind(start, front);
    let now = before.behind(page);
    let ws = start.workspaces@;
    assert(start.workspaces.len() == ws.len());
    assert(now.at == before.at + 1);
    let here = store(ws[before.at as int]);
    let done = comments_of(store, ws.subrange(0, before.at as int));
    assert(here.subrange(0, k) + page =~= here);
    assert((done + here.subrange(0, k)) + page =~= done + (here.subrange(0, k) + page));
    let more = ws.subrange(0, before.at + 1);
    assert(more.drop_last() =~= ws.subrange(0, before.at as int));
    assert(comments_of(store, more) == done + here);
    if now.at < ws.len() {
        assert((done + here) + store(ws[now.at as int]).subrange(0, 0) =~= done + here);
    }
}

/// A page that the store answers takes an export on.
proof fn lemma_next_page(
    start: CommentExport,
    store: spec_fn(Uuid) -> Seq<ExportComment>,
    front: Seq<Seq<ExportComment>>,
    page: Seq<ExportComment>,
    k: int,
) -> (m: int)
    requires
        start.page_size > 0,
        came_to(start, store, front, k),
        forall|w: Uuid| in_order(#[trigger] store(w)),
        stands_behind(start, front).awaited() matches Some(request) && page == page_of(
            store,
            request,
            start.page_size,
        ),
    ensures
        came_to(start, store, front.push(page), m),
{
    let ws = start.workspaces@;
    let before = stands_behind(start, front);
    let here = store(ws[before.at as int]);
    lemma_rest_behind(here, k);
    let rest = here.subrange(k, here.len() as int);
    if rest.len() < start.page_size {
        lemma_last_page(start, store, front, page, k);
        0
    } else {
        assert(page =~= here.subrange(k, k + start.page_size));
        lemma_full_page(start, store, front, page, k);
        k + page.len()
    }
}

proof fn lemma_came_to(
    start: CommentExport,
    store: spec_fn(Uuid) -> Seq<ExportComment>,
    pages: Seq<Seq<ExportComment>>,
) -> (k: int)
    requires
        start == (CommentExport { at: 0, after: None, first: true, ..start }),
        start.page_size > 0,
        forall|w: Uuid| in_order(#[trigger] store(w)),
        pages_answer(start, store, pages),
    ensures
        came_to(start, store, pages, k),
    decreases pages.len(),
{
    if pages.len() == 0 {
        lemma_came_to_start(start, store, pages);
        0
    } else {
        let front = pages.drop_last();
        let k = lemma_came_to(start, store, front);
        assert(pages =~= front.push(pages.last()));
        lemma_next_page(start, store, front, pages.last(), k)
    }
}

proof fn lemma_came_to_start(
    start: CommentExport,
    store: spec_fn(Uuid) -> Seq<ExportComment>,
    pages: Seq<Seq<ExportComment>>,
)
    requires
        start == (CommentExport { at: 0, after: None, first: true, ..start }),
        pages.len() == 0,
    ensures
        came_to(start, store, pages, 0),
{
    let ws = start.workspaces@;
    assert(ws.subrange(0, 0) =~= Seq::<Uuid>::empty());
    if ws.len() > 0 {
        assert(comments_of(store, ws.subrange(0, 0)) + store(ws[0]).subrange(0, 0) =~= Seq::<
            ExportComment,
        >::empty());
    }
}

/// Where the store answers each request with the first comments behind the place, a page of them at
/// most, the pages taken until nothing is asked for any more are together exactly the comments of
/// all workspaces, each once and in order.
pub proof fn law_pages_are_all_comments(
    start: CommentExport,
    store: spec_fn(Uuid) -> Seq<ExportComment>,
    pages: Seq<Seq<ExportComment>>,
)
    requires
        start == (CommentExport { at: 0, after: None, first: true, ..start }),
        start.page_size > 0,
        forall|w: Uuid| in_order(#[trigger] store(w)),
        pages_answer(start, store, pages),
        stands_behind(start, pages).awaited() is None,
    ensures
        all_comments(pages) == comments_of(store, start.workspaces@),
{
    let k = lemma_came_to(start, store, pages);
    let ws = start.workspaces@;
    assert(ws.subrange(0, ws.len() as int) =~= ws);
}

/// An export comes to its end: it asks for no more pages than there are workspaces and comments.
pub proof fn law_export_of_comments_ends(
    start: CommentExport,
    store: spec_fn(Uuid) -> Seq<ExportComment>,
    pages: Seq<Seq<ExportComment>>,
)
    requires
        start == (CommentExport { at: 0, after: None, first: true, ..start }),
        start.page_size > 0,
        forall|w: Uuid| in_order(#[trigger] store(w)),
        pages_answer(start, store, pages),
    ensures
        pages.len() <= start.workspaces@.len() + comments_of(store, start.workspaces@).len(),
{
    let k = lemma_came_to(start, store, pages);
    let now = stands_behind(start, pages);
    let ws = start.workspaces@;
    assert(ws.subrange(0, ws.len() as int) =~= ws);
    if now.at < ws.len() {
        lemma_comments_grow(store, ws, now.at + 1);
        let more = ws.subrange(0, now.at + 1);
        assert(more.drop_last() =~= ws.subrange(0, now.at as int));
    }
}

proof fn lemma_comments_grow(
    store: spec_fn(Uuid) -> Seq<ExportComment>,
    workspaces: Seq<Uuid>,
    n: int,
)
    requires
        0 <= n <= workspaces.len(),
    ensures
        comments_of(store, workspaces.subrange(0, n)).len() <= comments_of(store, workspaces).len(),
    decreases workspaces.len() - n,
{
    if n < workspaces.len() {
        lemma_comments_grow(store, workspaces, n + 1);
        let more = workspaces.subrange(0, n + 1);
        assert(more.drop_last() =~= workspaces.subrange(0, n));
    } else {
        assert(workspaces.subrange(0, n) =~= workspaces);
    }
}

/// What files declare together is the sum of what each declares: its size where it has one above
/// nothing and no virus was found in it, else nothing.
pub proof fn law_declared_sizes_add_up(a: Seq<ExportAttachment>, b: Seq<ExportAttachment>)
    ensures
        declared_size(a + b) == declared_size(a) + declared_size(b),
        a.len() == 1 ==> declared_size(a) == match a[0].size_bytes {
            Some(n) => if n > 0 && a[0].scan_status@ != "infected"@ {
                n as nat
            } else {
                0
            },
            None => 0,
        },
    decreases b.len(),
{
    if b.len() == 0 {
        assert(a + b =~= a);
    } else {
        law_declared_sizes_add_up(a, b.drop_last());
        assert((a + b).drop_last() =~= a + b.drop_last());
        assert((a + b).last() == b.last());
    }
    if a.len() == 1 {
        assert(declared_size(a.drop_last()) == 0);
        assert(a.last() == a[0]);
    }
}

/// No two files have entries of the same name, whatever they are called.
pub proof fn law_entries_have_names_of_their_own(
    a: Uuid,
    b: Uuid,
    name: Seq<char>,
    other: Seq<char>,
)
    requires
        entry_name(a, name) == entry_name(b, other),
    ensures
        a == b,
        name == other,
{
    let front = "attachments/"@;
    let x = ids::uuid_text(a.0);
    let y = ids::uuid_text(b.0);
    let n = front.len() as int;
    reveal_strlit("-");
    ids::law_uuid_text_has_its_shape(a.0);
    ids::law_uuid_text_has_its_shape(b.0);
    let s = entry_name(a, name);
    let t = entry_name(b, other);
    assert(s.subrange(n, n + 36) =~= x);
    assert(t.subrange(n, n + 36) =~= y);
    ids::law_uuid_texts_are_apart(a.0, b.0);
    assert(s.subrange(n + 37, s.len() as int) =~= name);
    assert(t.subrange(n + 37, t.len() as int) =~= other);
}

/// The lines of an element that was moved in are its lines, each behind two spaces.
pub proof fn law_every_line_is_moved_in(s: Seq<char>)
    requires
        text::lines_of(s).len() > 0,
    ensures
        text::split(indented(s), '\n') == text::lines_of(s).map_values(
            |line: Seq<char>| seq![' ', ' '] + line,
        ),
{
    reveal_strlit("  ");
    reveal_strlit("\n");
    let moved = text::lines_of(s).map_values(|line: Seq<char>| "  "@ + line);
    assert("\n"@ =~= seq!['\n']);
    assert("  "@ =~= seq![' ', ' ']);
    let pieces = text::split(s, '\n');
    text::law_pieces_make_the_text(s, '\n');
    assert forall|i: int| 0 <= i < moved.len() implies !(#[trigger] moved[i]).contains('\n') by {
        let line = text::lines_of(s)[i];
        assert(!pieces[i].contains('\n'));
        if moved[i].contains('\n') {
            let k = moved[i].index_of('\n');
            assert(line[k - 2] == '\n');
            assert(pieces[i][k - 2] == '\n');
        }
    }
    text::law_text_has_its_pieces(moved, '\n');
    assert(moved =~= text::lines_of(s).map_values(|line: Seq<char>| seq![' ', ' '] + line));
}

/// Behind a full page an export goes on in the same workspace behind the last comment of the page,
/// and behind any other at the start of the next one; what is written is what the page holds.
pub proof fn law_export_goes_on_behind_the_page(
    export: &mut CommentExport,
    page: &[ExportComment],
    elements: &[String],
    r: Option<String>,
)
    requires
        export.at < export.workspaces@.len(),
        elements@.len() == page@.len(),
        call_ensures(CommentExport::take_page, (export, page, elements), r),
    ensures
        ({
            let full = page@.len() > 0 && page@.len() == old(export).page_size;
            &&& final(export).workspaces == old(export).workspaces
            &&& final(export).page_size == old(export).page_size
            &&& full ==> final(export).at == old(export).at && final(export).after == Some(
                (page@[page@.len() - 1].created_at, page@[page@.len() - 1].id),
            )
            &&& !full ==> final(export).at == old(export).at + 1 && final(export).after is None
            &&& final(export).first <==> old(export).first && page@.len() == 0
            &&& r is Some <==> page@.len() > 0
            &&& r matches Some(chunk) ==> chunk@ == (if old(export).first {
                "[\n"@
            } else {
                ",\n"@
            }) + text::joined(text::views(elements@), ",\n"@)
        }),
{
    assert(export.workspaces.len() == export.workspaces@.len());
    if page@.len() > 0 {
        assert(page@.last() == page@[page@.len() - 1]);
        assert(text::views(elements@).len() == elements@.len());
        lemma_chunk_begins(old(export).first, text::views(elements@));
    }
}

proof fn lemma_chunk_begins(first: bool, elements: Seq<Seq<char>>)
    requires
        elements.len() > 0,
    ensures
        chunk_text(first, elements) == (if first {
            "[\n"@
        } else {
            ",\n"@
        }) + text::joined(elements, ",\n"@),
    decreases elements.len(),
{
    let front = elements.drop_last();
    let begin = if first {
        "[\n"@
    } else {
        ",\n"@
    };
    if front.len() > 0 {
        lemma_chunk_begins(first, front);
        assert(chunk_text(first, elements) =~= begin + text::joined(elements, ",\n"@));
    } else {
        assert(chunk_text(first, front) =~= Seq::<char>::empty());
        assert(chunk_text(first, elements) =~= begin + elements.last());
        assert(text::joined(elements, ",\n"@) =~= elements.last());
    }
}

/// What one user is told by this limit does not depend on the requests of another: `export_limit`
/// answers `b` alike behind a request of `a` and without it.
pub proof fn law_export_limit_is_one_for_each_user(
    first: &mut RateLimiter,
    second: &mut RateLimiter,
    alone: &mut RateLimiter,
    a: &RequestAuth,
    b: &RequestAuth,
    now: u64,
    later: u64,
    told_a: Result<(), AppError>,
    told_b: Result<(), AppError>,
    told_alone: Result<(), AppError>,
)
    requires
        first.wf(),
        second.wf(),
        alone.wf(),
        a.user_id != b.user_id,
        old(first)@.dom().len() < rate_limit::MAX_KEYS,
        old(second)@ == final(first)@,
        old(alone)@ == old(first)@,
        call_ensures(export_limit, (first, a, now), told_a),
        call_ensures(export_limit, (second, b, later), told_b),
        call_ensures(export_limit, (alone, b, later), told_alone),
    ensures
        told_b is Ok <==> told_alone is Ok,
        error::told(told_b) == error::told(told_alone),
{
    ids::law_uuid_texts_are_apart(a.user_id.0, b.user_id.0);
    rate_limit::lemma_keys_apart("user-export:"@, ids::uuid_text(a.user_id.0), ids::uuid_text(b.user_id.0));
    rate_limit::lemma_other_keys_stay(
        old(first)@,
        final(first)@,
        "user-export:"@ + ids::uuid_text(a.user_id.0),
        USER_EXPORT_PER_USER,
        USER_EXPORT_WINDOW,
        now,
        "user-export:"@ + ids::uuid_text(b.user_id.0),
    );
}

/// The listings hold each value of a profile, a comment and a file under its own name; an id is
/// written so that it is read back.
pub proof fn law_listed_values_keep_their_names(
    profile: ExportProfile,
    comment: &ExportComment,
    row: &ExportAttachment,
    p: ProfileJson,
    c: CommentJson,
    f: AttachmentJson,
)
    requires
        call_ensures(profile_json, (profile,), p),
        call_ensures(comment_json, (comment,), c),
        call_ensures(attachment_json, (row,), f),
    ensures
        ids::uuid_of(p.id@) == Some(profile.id.0),
        p.email == profile.email,
        p.given_name == profile.given_name,
        p.family_name == profile.family_name,
        p.locale == profile.locale,
        p.timezone == profile.timezone,
        p.week_starts_on == profile.week_starts_on,
        ids::uuid_of(c.id@) == Some(comment.id.0),
        ids::uuid_of(c.workspace_id@) == Some(comment.workspace_id.0),
        match (comment.document_id, c.document_id) {
            (Some(id), Some(s)) => ids::uuid_of(s@) == Some(id.0),
            (None, None) => true,
            _ => false,
        },
        match (comment.task_id, c.task_id) {
            (Some(id), Some(s)) => ids::uuid_of(s@) == Some(id.0),
            (None, None) => true,
            _ => false,
        },
        c.body == comment.body,
        c.created_at@ == time::pattern_text(comment.created_at@ as i64),
        ids::uuid_of(f.id@) == Some(row.id.0),
        ids::uuid_of(f.workspace_id@) == Some(row.workspace_id.0),
        f.name == row.name,
        f.mime == row.mime,
        f.size_bytes == row.size_bytes,
        f.scan_status == row.scan_status,
{
    ids::law_uuid_round_trip(profile.id.0);
    ids::law_uuid_round_trip(comment.id.0);
    ids::law_uuid_round_trip(comment.workspace_id.0);
    if let Some(id) = comment.document_id {
        ids::law_uuid_round_trip(id.0);
    }
    if let Some(id) = comment.task_id {
        ids::law_uuid_round_trip(id.0);
    }
    ids::law_uuid_round_trip(row.id.0);
    ids::law_uuid_round_trip(row.workspace_id.0);
}

} // verus!
