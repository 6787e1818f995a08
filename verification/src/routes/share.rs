//! Share links, and what one who has a link may see.

use vstd::prelude::*;
use vstd::string::*;
use crate::answer::Answer;
use crate::digest;
use crate::digest::strong_etag;
use crate::encoding;
use crate::encoding::random_token;
use crate::error;
use crate::error::{AppError, DbFailure, ErrorView, ProblemCode};
use crate::header;
use crate::header::{Header, can_send, if_none_matches, no_headers, put, replace};
use crate::ids;
use crate::ids::{Uuid, text_of};
use crate::json::JsonView;
use crate::number;
use crate::number::coerce;
use crate::problem;
use crate::problem::{CodedReply, coded_reply};
use crate::rate_limit;
use crate::rate_limit::{RateLimiter, charge};
use crate::routes::attachments;
use crate::routes::attachments::{FileReply, FileReplyView, last_of};
use crate::routes::legal;
use crate::routes::stars;
use crate::routes::stars::parse_body_uuid;
use crate::store;
use crate::store::{Refusal, stored};
use crate::text;
use crate::text::{escape_html, join2, join3, same, signed_decimal_string, trim_end_char};
use crate::time;
use crate::time::Timestamp;

verus! {

/// What one address may ask of links within a minute.
pub const SHARE_IP_LIMIT: u32 = 60;

pub const SHARE_IP_WINDOW: u64 = 60_000_000_000;

/// The most days that a link may live.
pub const SHARE_DAYS_MAX: u64 = 365;

/// Every answer to one who has a link keeps the link from being passed on.
pub fn no_referrer(headers: &mut Vec<Header>)
    ensures
        header::header_views(final(headers)@) == header::others(
            header::header_views(old(headers)@),
            "referrer-policy"@,
        ).push(("referrer-policy"@, "no-referrer"@)),
{
    replace(headers, "referrer-policy", "no-referrer");
}

/// A link, as the store keeps it.
#[derive(Debug)]
pub struct ShareLinkRecord {
    pub id: Uuid,
    pub workspace_id: Uuid,
    pub document_id: Option<Uuid>,
    pub project_id: Option<Uuid>,
    pub expires_at: Timestamp,
    pub created_at: Timestamp,
}

/// A link as it is answered.
#[derive(Debug)]
pub struct ShareLinkOutput {
    pub id: String,
    pub workspace_id: String,
    pub document_id: Option<String>,
    pub project_id: Option<String>,
    pub expires_at: String,
    pub created_at: String,
}

impl Answer for ShareLinkRecord {
    type Out = ShareLinkOutput;

    open spec fn answered(&self, out: &ShareLinkOutput) -> bool {
        &&& out.id@ == ids::uuid_text(self.id.0)
        &&& out.workspace_id@ == ids::uuid_text(self.workspace_id.0)
        &&& error::text_view(out.document_id) == ids::opt_text(self.document_id)
        &&& error::text_view(out.project_id) == ids::opt_text(self.project_id)
        &&& out.expires_at@ == time::rfc3339_millis(self.expires_at@ as i64)
        &&& out.created_at@ == time::rfc3339_millis(self.created_at@ as i64)
    }

    fn answer(&self) -> (r: ShareLinkOutput) {
        ShareLinkOutput {
            id: self.id.text(),
            workspace_id: self.workspace_id.text(),
            document_id: text_of(self.document_id),
            project_id: text_of(self.project_id),
            expires_at: self.expires_at.iso(),
            created_at: self.created_at.iso(),
        }
    }
}

/// The address of the page behind a link.
pub open spec fn share_link(public_origin: Seq<char>, token: Seq<char>) -> Seq<char> {
    text::without_trailing(public_origin, '/') + "/s/"@ + token
}

/// The address of the page behind a link.
pub fn share_page_url(public_origin: &str, token: &str) -> (r: String)
    ensures
        r@ == share_link(public_origin@, token@),
{
    join3(trim_end_char(public_origin, '/'), "/s/", token)
}

/// Why the store refused a request about links.
#[derive(Clone, Copy, Debug, PartialEq, Eq, Structural)]
pub enum ShareDbError {
    NotFound,
    Forbidden,
    InvalidInput,
}

/// The problem that a refusal about links is told as.
pub open spec fn share_code(err: ShareDbError) -> ProblemCode {
    match err {
        ShareDbError::NotFound | ShareDbError::Forbidden => ProblemCode::NotFound,
        ShareDbError::InvalidInput => ProblemCode::InvalidInput,
    }
}

pub fn map_share_error(err: ShareDbError) -> (r: AppError)
    ensures
        r@ == error::problem(share_code(err)),
{
    match err {
        ShareDbError::NotFound | ShareDbError::Forbidden => AppError::from_code(
            ProblemCode::NotFound,
        ),
        ShareDbError::InvalidInput => AppError::from_code(ProblemCode::InvalidInput),
    }
}

impl Refusal for ShareDbError {
    open spec fn problem(&self) -> ErrorView {
        error::problem(share_code(*self))
    }

    fn refusal(&self) -> (r: AppError) {
        map_share_error(*self)
    }
}

/// Where sharing is switched off, there is nothing behind a link.
pub fn ensure_sharing_enabled(enabled: Result<bool, DbFailure>) -> (r: Result<(), AppError>)
    ensures
        match enabled {
            Err(_) => error::refused(r, ProblemCode::Internal),
            Ok(true) => r is Ok,
            Ok(false) => error::refused(r, ProblemCode::NotFound),
        },
{
    match enabled {
        Err(_) => Err(AppError::internal()),
        Ok(true) => Ok(()),
        Ok(false) => Err(AppError::from_code(ProblemCode::NotFound)),
    }
}

/// The days that a link lives, where a number is given: a whole one between one and
/// `SHARE_DAYS_MAX`. `value` is the number as it is written.
pub fn parse_expires_days(value: Option<&str>) -> (r: Result<Option<u64>, AppError>)
    ensures
        match value {
            None => r == Ok::<Option<u64>, AppError>(None),
            Some(s) => match r {
                Ok(Some(n)) => number::coerced(s@, SHARE_DAYS_MAX as nat, Some(n)),
                Ok(None) => false,
                Err(e) => number::coerced(s@, SHARE_DAYS_MAX as nat, None) && e@
                    == error::problem_at(ProblemCode::InvalidInput, "/expiresInDays"@),
            },
        },
{
    match value {
        None => Ok(None),
        Some(s) => match coerce(s, SHARE_DAYS_MAX) {
            Some(n) => Ok(Some(n)),
            None => Err(AppError::with_source(ProblemCode::InvalidInput, "/expiresInDays")),
        },
    }
}

/// What a link leads to.
#[derive(Clone, Copy, Debug, PartialEq, Eq, Structural)]
pub enum ShareTarget {
    Document(Uuid),
    Project(Uuid),
}

/// What a new link leads to: a document or a project, not both.
pub fn share_target(document_id: Option<&str>, project_id: Option<&str>) -> (r: Result<
    ShareTarget,
    AppError,
>)
    ensures
        match (document_id, project_id) {
            (Some(d), None) => match stars::body_uuid(d@) {
                Some(v) => r == Ok::<_, AppError>(ShareTarget::Document(Uuid(v))),
                None => error::refused_at(r, ProblemCode::InvalidInput, "/documentId"@),
            },
            (None, Some(p)) => match stars::body_uuid(p@) {
                Some(v) => r == Ok::<_, AppError>(ShareTarget::Project(Uuid(v))),
                None => error::refused_at(r, ProblemCode::InvalidInput, "/projectId"@),
            },
            _ => error::refused(r, ProblemCode::InvalidInput),
        },
{
    match (document_id, project_id) {
        (Some(d), None) => match parse_body_uuid(d) {
            Some(id) => Ok(ShareTarget::Document(id)),
            None => Err(AppError::with_source(ProblemCode::InvalidInput, "/documentId")),
        },
        (None, Some(p)) => match parse_body_uuid(p) {
            Some(id) => Ok(ShareTarget::Project(id)),
            None => Err(AppError::with_source(ProblemCode::InvalidInput, "/projectId")),
        },
        _ => Err(AppError::from_code(ProblemCode::InvalidInput)),
    }
}

/// A link that was made.
#[derive(Debug)]
pub struct CreatedShareLink {
    pub record: ShareLinkRecord,
    pub token: String,
}

/// The answer with a link that was made.
#[derive(Debug)]
pub struct ShareLinkCreatedOutput {
    pub base: ShareLinkOutput,
    pub url: String,
}

/// The answer to the making of a link.
pub fn link_created(
    done: Result<Result<CreatedShareLink, ShareDbError>, DbFailure>,
    public_origin: &str,
) -> (r: Result<ShareLinkCreatedOutput, AppError>)
    ensures
        match r {
            Ok(out) => done matches Ok(Ok(c)) && c.record.answered(&out.base) && out.url@
                == share_link(public_origin@, c.token@),
            Err(e) => store::store_problem(done) == Some(e@),
        },
{
    match stored(done) {
        Err(e) => Err(e),
        Ok(c) => Ok(
            ShareLinkCreatedOutput {
                base: c.record.answer(),
                url: share_page_url(public_origin, c.token.as_str()),
            },
        ),
    }
}

/// Charges an address with what it asks of links.
pub fn enforce_share_limit(limiter: &mut RateLimiter, ip: &str, now: u64) -> (r: Result<
    (),
    AppError,
>)
    requires
        old(limiter).wf(),
    ensures
        final(limiter).wf(),
        rate_limit::charged_once(
            old(limiter)@,
            final(limiter)@,
            "share-ip:"@ + ip@,
            SHARE_IP_LIMIT,
            SHARE_IP_WINDOW,
            now,
            error::told(r),
        ),
{
    let key = join2("share-ip:", ip);
    charge(limiter, key.as_str(), SHARE_IP_LIMIT, SHARE_IP_WINDOW, now)
}

/// What the head of the page behind a link tells, which is served in any case: nothing to an
/// address that is not known (`known`) or has asked too much (`allowed`), nor where sharing is
/// switched off. `meta` is what the store has for the link.
pub fn shell_head_meta<T>(
    known: bool,
    allowed: bool,
    enabled: Result<bool, DbFailure>,
    meta: Result<Option<T>, DbFailure>,
) -> (r: Result<Option<T>, AppError>)
    ensures
        if !known || !allowed {
            r == Ok::<Option<T>, AppError>(None)
        } else {
            match enabled {
                Err(_) => error::refused(r, ProblemCode::Internal),
                Ok(false) => r == Ok::<Option<T>, AppError>(None),
                Ok(true) => match meta {
                    Err(_) => error::refused(r, ProblemCode::Internal),
                    Ok(m) => r == Ok::<Option<T>, AppError>(m),
                },
            }
        },
{
    if !known || !allowed {
        return Ok(None);
    }
    match enabled {
        Err(_) => Err(AppError::internal()),
        Ok(false) => Ok(None),
        Ok(true) => match meta {
            Err(_) => Err(AppError::internal()),
            Ok(m) => Ok(m),
        },
    }
}

/// What anyone with a link may know of it, as the store keeps it.
#[derive(Debug)]
pub struct SharePublicMeta {
    pub title: String,
    pub document_id: Option<Uuid>,
    pub project_id: Option<Uuid>,
    pub expires_at: Timestamp,
}

/// What anyone with a link may know of it as it is answered.
#[derive(Debug)]
pub struct SharePublicMetaOutput {
    pub title: String,
    pub document_id: Option<String>,
    pub project_id: Option<String>,
    pub expires_at: String,
}

impl Answer for SharePublicMeta {
    type Out = SharePublicMetaOutput;

    open spec fn answered(&self, out: &SharePublicMetaOutput) -> bool {
        &&& out.title@ == self.title@
        &&& error::text_view(out.document_id) == ids::opt_text(self.document_id)
        &&& error::text_view(out.project_id) == ids::opt_text(self.project_id)
        &&& out.expires_at@ == time::rfc3339_millis(self.expires_at@ as i64)
    }

    fn answer(&self) -> (r: SharePublicMetaOutput) {
        SharePublicMetaOutput {
            title: self.title.clone(),
            document_id: text_of(self.document_id),
            project_id: text_of(self.project_id),
            expires_at: self.expires_at.iso(),
        }
    }
}

/// The form in which a shared document is asked for.
#[derive(Clone, Copy, Debug, PartialEq, Eq, Structural)]
pub enum BodyFormat {
    Html,
    Fragment,
    Markdown,
}

/// The name of a form.
pub open spec fn format_name(format: BodyFormat) -> Seq<char> {
    match format {
        BodyFormat::Html => "html"@,
        BodyFormat::Fragment => "fragment"@,
        BodyFormat::Markdown => "md"@,
    }
}

impl BodyFormat {
    pub fn as_str(self) -> (r: &'static str)
        ensures
            r@ == format_name(self),
    {
        match self {
            BodyFormat::Html => "html",
            BodyFormat::Fragment => "fragment",
            BodyFormat::Markdown => "md",
        }
    }
}

/// The query of a shared document.
#[derive(Debug)]
pub struct ShareBodyQuery {
    pub format: Option<String>,
}

/// The form that a name stands for.
pub open spec fn format_of(name: Option<Seq<char>>) -> Option<BodyFormat> {
    match name {
        None => Some(BodyFormat::Html),
        Some(n) => if n == "html"@ {
            Some(BodyFormat::Html)
        } else if n == "fragment"@ {
            Some(BodyFormat::Fragment)
        } else if n == "md"@ {
            Some(BodyFormat::Markdown)
        } else {
            None
        },
    }
}

/// The form that a query asks for.
pub fn parse_format(query: &ShareBodyQuery) -> (r: Result<BodyFormat, AppError>)
    ensures
        match format_of(error::text_view(query.format)) {
            Some(format) => r == Ok::<_, AppError>(format),
            None => error::refused(r, ProblemCode::InvalidInput),
        },
{
    match &query.format {
        None => Ok(BodyFormat::Html),
        Some(n) => if same(n.as_str(), "html") {
            Ok(BodyFormat::Html)
        } else if same(n.as_str(), "fragment") {
            Ok(BodyFormat::Fragment)
        } else if same(n.as_str(), "md") {
            Ok(BodyFormat::Markdown)
        } else {
            Err(AppError::from_code(ProblemCode::InvalidInput))
        },
    }
}

/// The tag of a shared document, from when it was changed and the form that is asked for.
pub open spec fn shared_tag(updated_at_iso: Seq<char>, format: BodyFormat) -> Seq<char> {
    digest::etag_of(
        digest::sha256(vstd::utf8::encode_utf8(updated_at_iso + "|"@ + format_name(format))),
    )
}

/// The tag of a shared document.
pub fn share_etag(updated_at_iso: &str, format: BodyFormat) -> (r: String)
    ensures
        r@ == shared_tag(updated_at_iso@, format),
        header::sendable(r@),
{
    let payload = join3(updated_at_iso, "|", format.as_str());
    strong_etag(payload.as_str().as_bytes())
}

/// The start of the page around a shared document.
pub open spec fn page_start() -> Seq<char> {
    "<!DOCTYPE html>\n<html lang=\"ko\">\n<head>\n<meta charset=\"utf-8\"/>\n<meta name=\"viewport\" content=\"width=device-width, initial-scale=1\"/>\n<meta name=\"referrer\" content=\"no-referrer\"/>\n<title>"@
}

/// What stands between the nonce and the contents.
pub open spec fn page_style() -> Seq<char> {
    "\">\nbody{font-family:\"Noto Sans KR\",\"Noto Sans KR\",system-ui,\"Noto Sans KR\",sans-serif;word-break:keep-all;}\n\n</style>\n</head>\n<body>\n"@
}

/// The page around a shared document: its title and the nonce as HTML shows them, its contents as
/// they are.
pub open spec fn share_page(title: Seq<char>, inner: Seq<char>, nonce: Seq<char>) -> Seq<char> {
    page_start() + text::html_text(title) + "</title>\n<style nonce=\""@ + text::html_text(nonce)
        + page_style() + inner + "\n</body>\n</html>"@
}

/// The page around a shared document.
pub fn wrap_share_html(title: &str, inner: &str, nonce: &str) -> (r: String)
    ensures
        r@ == share_page(title@, inner@, nonce@),
{
    let shown_title = escape_html(title);
    let shown_nonce = escape_html(nonce);
    let mut out: String =
        "<!DOCTYPE html>\n<html lang=\"ko\">\n<head>\n<meta charset=\"utf-8\"/>\n<meta name=\"viewport\" content=\"width=device-width, initial-scale=1\"/>\n<meta name=\"referrer\" content=\"no-referrer\"/>\n<title>".to_owned();
    out.append(shown_title.as_str());
    out.append("</title>\n<style nonce=\"");
    out.append(shown_nonce.as_str());
    out.append(
        "\">\nbody{font-family:\"Noto Sans KR\",\"Noto Sans KR\",system-ui,\"Noto Sans KR\",sans-serif;word-break:keep-all;}\n\n</style>\n</head>\n<body>\n",
    );
    out.append(inner);
    out.append("\n</body>\n</html>");
    out
}

/// What a page with this nonce may load and run: its own style and images.
pub open spec fn page_policy(nonce: Seq<char>) -> Seq<char> {
    "default-src 'none'; style-src 'nonce-"@ + nonce
        + "'; img-src 'self' data: blob:; base-uri 'none'; form-action 'none'; frame-ancestors 'none'"@
}

/// A policy can be sent where the nonce can.
proof fn lemma_policy_sendable(nonce: Seq<char>)
    requires
        header::sendable(nonce),
    ensures
        header::sendable(page_policy(nonce)),
{
    reveal_strlit("default-src 'none'; style-src 'nonce-");
    reveal_strlit(
        "'; img-src 'self' data: blob:; base-uri 'none'; form-action 'none'; frame-ancestors 'none'",
    );
    assert(header::sendable("default-src 'none'; style-src 'nonce-"@));
    assert(header::sendable(
        "'; img-src 'self' data: blob:; base-uri 'none'; form-action 'none'; frame-ancestors 'none'"@,
    ));
}

/// A shared document, as the store keeps it.
#[derive(Debug)]
pub struct SharedDocument {
    pub title: String,
    pub updated_at: Timestamp,
}

/// The answer with a shared document.
#[derive(Debug)]
pub struct SharedBody {
    pub status: u16,
    pub headers: Vec<Header>,
    pub body: String,
}

/// The contents of a `SharedBody`.
#[verifier::ext_equal]
pub struct SharedBodyView {
    pub status: u16,
    pub headers: Seq<(Seq<char>, Seq<char>)>,
    pub body: Seq<char>,
}

impl View for SharedBody {
    type V = SharedBodyView;

    open spec fn view(&self) -> SharedBodyView {
        SharedBodyView {
            status: self.status,
            headers: header::header_views(self.headers@),
            body: self.body@,
        }
    }
}

/// What is shown of a document: nothing where its contents are none.
pub open spec fn shown(rendered: Option<&str>) -> Seq<char> {
    match rendered {
        Some(s) => s@,
        None => Seq::empty(),
    }
}

/// The answer with a shared document. A page is never kept, and nothing in it runs; what is no
/// page is data, which nothing loads or runs at all.
pub open spec fn shared_view(
    doc: SharedDocument,
    format: BodyFormat,
    if_none_match: Option<&[u8]>,
    rendered: Option<&str>,
    nonce: Seq<char>,
) -> SharedBodyView {
    let tag = shared_tag(time::rfc3339_millis(doc.updated_at@ as i64), format);
    if format != BodyFormat::Html && legal::client_has(if_none_match, tag) {
        SharedBodyView {
            status: 304,
            headers: seq![("etag"@, tag), ("cache-control"@, "private, no-cache"@)],
            body: Seq::empty(),
        }
    } else {
        match format {
            BodyFormat::Html => SharedBodyView {
                status: 200,
                headers: seq![
                    ("content-type"@, "text/html; charset=utf-8"@),
                    ("content-security-policy"@, page_policy(nonce)),
                    ("cache-control"@, "private, no-store"@),
                    ("x-content-type-options"@, "nosniff"@),
                ],
                body: share_page(doc.title@, shown(rendered), nonce),
            },
            _ => SharedBodyView {
                status: 200,
                headers: seq![
                    (
                        "content-type"@,
                        if format == BodyFormat::Markdown {
                            "text/markdown; charset=utf-8"@
                        } else {
                            "text/html; charset=utf-8"@
                        },
                    ),
                    ("content-security-policy"@, "default-src 'none'; sandbox"@),
                    ("cache-control"@, "private, no-cache"@),
                    ("etag"@, tag),
                    ("x-content-type-options"@, "nosniff"@),
                ],
                body: shown(rendered),
            },
        }
    }
}

/// Every header of the answer with a shared document can be sent.
pub open spec fn all_sendable(headers: Seq<(Seq<char>, Seq<char>)>) -> bool {
    forall|i: int| 0 <= i < headers.len() ==> header::sendable((#[trigger] headers[i]).1)
}

/// The headers of the answer with a shared document can be sent where the tag and the nonce can.
proof fn lemma_shared_headers(
    doc: SharedDocument,
    format: BodyFormat,
    if_none_match: Option<&[u8]>,
    rendered: Option<&str>,
    nonce: Seq<char>,
)
    requires
        header::sendable(nonce),
        header::sendable(shared_tag(time::rfc3339_millis(doc.updated_at@ as i64), format)),
    ensures
        all_sendable(shared_view(doc, format, if_none_match, rendered, nonce).headers),
{
    lemma_policy_sendable(nonce);
    reveal_strlit("text/html; charset=utf-8");
    reveal_strlit("text/markdown; charset=utf-8");
    reveal_strlit("private, no-store");
    reveal_strlit("private, no-cache");
    reveal_strlit("nosniff");
    reveal_strlit("default-src 'none'; sandbox");
    assert(header::sendable("text/html; charset=utf-8"@));
    assert(header::sendable("text/markdown; charset=utf-8"@));
    assert(header::sendable("private, no-store"@));
    assert(header::sendable("private, no-cache"@));
    assert(header::sendable("nosniff"@));
    assert(header::sendable("default-src 'none'; sandbox"@));
}

/// The answer with a shared document, with this nonce. `rendered` is the document in the form that
/// is asked for, none where its contents are none.
pub fn shared_body(
    doc: &SharedDocument,
    format: BodyFormat,
    if_none_match: Option<&[u8]>,
    rendered: Option<&str>,
    nonce: &str,
) -> (r: SharedBody)
    ensures
        r@ == shared_view(*doc, format, if_none_match, rendered, nonce@),
        header::sendable(nonce@) ==> all_sendable(r@.headers),
{
    let at = doc.updated_at.iso();
    let tag = share_etag(at.as_str(), format);
    proof {
        if header::sendable(nonce@) {
            lemma_shared_headers(*doc, format, if_none_match, rendered, nonce@);
        }
    }
    let html: bool = format == BodyFormat::Html;
    if !html && if_none_matches(if_none_match, tag.as_str()) {
        let mut headers = no_headers();
        put(&mut headers, "etag", tag.as_str());
        put(&mut headers, "cache-control", "private, no-cache");
        let body: String = String::new();
        assert(header::header_views(headers@) == seq![
            ("etag"@, tag@),
            ("cache-control"@, "private, no-cache"@),
        ]);
        assert(body@ == Seq::<char>::empty());
        return SharedBody { status: 304, headers, body };
    }
    let inner: String = match rendered {
        Some(s) => s.to_owned(),
        None => String::new(),
    };
    assert(inner@ == shown(rendered));
    let mut headers = no_headers();
    if html {
        let mut policy: String = "default-src 'none'; style-src 'nonce-".to_owned();
        policy.append(nonce);
        policy.append(
            "'; img-src 'self' data: blob:; base-uri 'none'; form-action 'none'; frame-ancestors 'none'",
        );
        put(&mut headers, "content-type", "text/html; charset=utf-8");
        put(&mut headers, "content-security-policy", policy.as_str());
        put(&mut headers, "cache-control", "private, no-store");
        put(&mut headers, "x-content-type-options", "nosniff");
        assert(header::header_views(headers@) == seq![
            ("content-type"@, "text/html; charset=utf-8"@),
            ("content-security-policy"@, page_policy(nonce@)),
            ("cache-control"@, "private, no-store"@),
            ("x-content-type-options"@, "nosniff"@),
        ]);
        let body = wrap_share_html(doc.title.as_str(), inner.as_str(), nonce);
        return SharedBody { status: 200, headers, body };
    }
    let kind: &str = match format {
        BodyFormat::Markdown => "text/markdown; charset=utf-8",
        _ => "text/html; charset=utf-8",
    };
    put(&mut headers, "content-type", kind);
    put(&mut headers, "content-security-policy", "default-src 'none'; sandbox");
    put(&mut headers, "cache-control", "private, no-cache");
    put(&mut headers, "etag", tag.as_str());
    put(&mut headers, "x-content-type-options", "nosniff");
    assert(header::header_views(headers@) == seq![
        ("content-type"@, kind@),
        ("content-security-policy"@, "default-src 'none'; sandbox"@),
        ("cache-control"@, "private, no-cache"@),
        ("etag"@, tag@),
        ("x-content-type-options"@, "nosniff"@),
    ]);
    SharedBody { status: 200, headers, body: inner }
}

/// The answer with a shared document, with a nonce of sixteen random bytes.
pub fn document_body_response(
    found: Result<Option<SharedDocument>, DbFailure>,
    format: BodyFormat,
    if_none_match: Option<&[u8]>,
    rendered: Option<&str>,
) -> (r: Result<SharedBody, AppError>)
    ensures
        match found {
            Err(_) => error::refused(r, ProblemCode::Internal),
            Ok(None) => error::refused(r, ProblemCode::NotFound),
            Ok(Some(doc)) => r matches Ok(body) && all_sendable(body@.headers) && exists|
                nonce: Seq<char>,
            | #[trigger]
                encoding::url_token(nonce, 16) && body@ == shared_view(
                    doc,
                    format,
                    if_none_match,
                    rendered,
                    nonce,
                ),
        },
{
    match found {
        Err(_) => Err(AppError::internal()),
        Ok(None) => Err(AppError::from_code(ProblemCode::NotFound)),
        Ok(Some(doc)) => {
            let nonce = random_token(16);
            assert(encoding::url_token(nonce@, 16));
            proof {
                let bytes = choose|bytes: Seq<u8>| #[trigger]
                    bytes.len() == 16 && nonce@ == encoding::base64_text(bytes, true, false);
                encoding::lemma_base64_sendable(bytes, true, false);
            }
            Ok(shared_body(&doc, format, if_none_match, rendered, nonce.as_str()))
        },
    }
}

/// The query of a shared document as a file.
#[derive(Debug)]
pub struct SharePdfQuery {
    pub document_id: Option<String>,
}

/// The document that a query names, where it names one.
pub fn pdf_document(query: &SharePdfQuery) -> (r: Result<Option<Uuid>, AppError>)
    ensures
        match query.document_id {
            None => r == Ok::<Option<Uuid>, AppError>(None),
            Some(s) => match stars::body_uuid(s@) {
                Some(v) => r == Ok::<_, AppError>(Some(Uuid(v))),
                None => error::refused(r, ProblemCode::InvalidInput),
            },
        },
{
    match &query.document_id {
        None => Ok(None),
        Some(s) => match parse_body_uuid(s.as_str()) {
            Some(id) => Ok(Some(id)),
            None => Err(AppError::from_code(ProblemCode::InvalidInput)),
        },
    }
}

/// Why a shared document was not rendered.
#[derive(Clone, Copy, Debug, PartialEq, Eq, Structural)]
pub enum PdfFailure {
    InvalidInput,
    TooLarge,
    /// Every renderer for those with a link is at work; they do not wait for one.
    Busy,
    Failed,
    /// There is no renderer.
    Missing,
}

/// The answer with a shared document as a file.
#[derive(Debug)]
pub enum PdfReply {
    File { headers: Vec<Header> },
    Problem(CodedReply),
}

/// The headers before a shared document as a file.
pub open spec fn pdf_headers(disposition: Seq<char>) -> Seq<(Seq<char>, Seq<char>)> {
    seq![
        ("x-content-type-options"@, "nosniff"@),
        ("cache-control"@, "private, no-store"@),
        ("content-disposition"@, disposition),
        ("content-type"@, "application/pdf"@),
        ("content-security-policy"@, "sandbox"@),
    ]
}

/// The answer to a request for a PDF that is refused with a code of its own.
pub open spec fn pdf_refused(
    reply: CodedReply,
    status: u16,
    code: Seq<char>,
    title: Seq<char>,
    retry_after: Option<u32>,
) -> bool {
    &&& reply.status == status
    &&& header::header_views(reply.headers@) == problem::problem_headers(retry_after)
    &&& reply.body@ == JsonView::Object(problem::problem_members(status, code, title, None))
}

/// The answer with a shared document as a file. `disposition` is what names it to the client; one
/// that cannot be sent is an internal problem.
pub fn pdf_reply(rendered: Result<(), PdfFailure>, disposition: &str) -> (r: Result<
    PdfReply,
    AppError,
>)
    ensures
        match rendered {
            Err(PdfFailure::InvalidInput) => error::refused(r, ProblemCode::InvalidInput),
            Err(PdfFailure::TooLarge) => r matches Ok(PdfReply::Problem(reply)) && pdf_refused(
                reply,
                413,
                "document_body_exceeds_document_max_body_bytes"@,
                "document body exceeds document max body bytes"@,
                None,
            ),
            Err(PdfFailure::Busy) => r matches Ok(PdfReply::Problem(reply)) && pdf_refused(
                reply,
                503,
                "share_pdf_busy"@,
                "share pdf busy, retry"@,
                Some(5),
            ),
            Err(PdfFailure::Failed) | Err(PdfFailure::Missing) => error::refused(
                r,
                ProblemCode::Internal,
            ),
            Ok(_) => if header::sendable(disposition@) {
                r matches Ok(PdfReply::File { headers }) && header::header_views(headers@)
                    == pdf_headers(disposition@)
            } else {
                error::refused(r, ProblemCode::Internal)
            },
        },
{
    match rendered {
        Err(PdfFailure::InvalidInput) => {
            return Err(AppError::from_code(ProblemCode::InvalidInput));
        },
        Err(PdfFailure::TooLarge) => {
            return Ok(
                PdfReply::Problem(
                    coded_reply(
                        413,
                        "document_body_exceeds_document_max_body_bytes",
                        "document body exceeds document max body bytes",
                        &None,
                        None,
                    ),
                ),
            );
        },
        Err(PdfFailure::Busy) => {
            return Ok(
                PdfReply::Problem(
                    coded_reply(503, "share_pdf_busy", "share pdf busy, retry", &None, Some(5)),
                ),
            );
        },
        Err(PdfFailure::Failed) | Err(PdfFailure::Missing) => {
            return Err(AppError::internal());
        },
        Ok(_) => {},
    }
    if !can_send(disposition) {
        return Err(AppError::internal());
    }
    let mut headers = no_headers();
    put(&mut headers, "x-content-type-options", "nosniff");
    put(&mut headers, "cache-control", "private, no-store");
    put(&mut headers, "content-disposition", disposition);
    put(&mut headers, "content-type", "application/pdf");
    put(&mut headers, "content-security-policy", "sandbox");
    Ok(PdfReply::File { headers })
}

/// The headers before a shared file.
pub open spec fn shared_file_headers(disposition: Seq<char>, size: i64) -> Seq<
    (Seq<char>, Seq<char>),
> {
    seq![
        ("x-content-type-options"@, "nosniff"@),
        ("content-security-policy"@, "sandbox"@),
        ("cache-control"@, "private, no-store"@),
        ("content-type"@, "application/octet-stream"@),
        ("content-disposition"@, disposition),
        ("content-length"@, text::signed_decimal(size as int)),
    ]
}

/// The answer with a shared file, always whole. `disposition` is what names it to the client; one
/// that cannot be sent is an internal problem, and so is a file of unknown size.
pub fn shared_file(size: Option<i64>, disposition: &str) -> (r: Result<FileReply, AppError>)
    ensures
        match r {
            Ok(reply) => header::sendable(disposition@) && (size matches Some(n) && reply@ == (
            FileReplyView::File {
                status: 200,
                headers: shared_file_headers(disposition@, n),
                bytes: if n == 0 {
                    None
                } else {
                    Some((0u64, attachments::last_byte(n)))
                },
            })),
            Err(e) => (size is None || !header::sendable(disposition@)) && e@ == error::problem(
                ProblemCode::Internal,
            ),
        },
{
    let n: i64 = match size {
        None => {
            return Err(AppError::internal());
        },
        Some(n) => n,
    };
    if !can_send(disposition) {
        return Err(AppError::internal());
    }
    let length = signed_decimal_string(n);
    let mut headers = no_headers();
    put(&mut headers, "x-content-type-options", "nosniff");
    put(&mut headers, "content-security-policy", "sandbox");
    put(&mut headers, "cache-control", "private, no-store");
    put(&mut headers, "content-type", "application/octet-stream");
    put(&mut headers, "content-disposition", disposition);
    put(&mut headers, "content-length", length.as_str());
    assert(header::header_views(headers@) == shared_file_headers(disposition@, n));
    let bytes = if n == 0 {
        None
    } else {
        Some((0, last_of(n)))
    };
    Ok(FileReply::File { status: 200, headers, bytes })
}

/// The format of a name is the one that has it; without a name, it is a page.
pub proof fn law_format_is_known_by_its_name(format: BodyFormat, name: Seq<char>)
    ensures
        format_of(Some(format_name(format))) == Some(format),
        format_of(Some(name)) matches Some(f) ==> format_name(f) == name,
        format_of(None) == Some(BodyFormat::Html),
{
    reveal_strlit("html");
    reveal_strlit("fragment");
    reveal_strlit("md");
    assert("html"@.len() == 4 && "fragment"@.len() == 8 && "md"@.len() == 2);
}

/// A page is never kept; a fragment or a text is kept by its tag, and a client that has it is told
/// so and sent nothing.
pub proof fn law_shared_body_is_sent_once(
    doc: SharedDocument,
    format: BodyFormat,
    if_none_match: Option<&[u8]>,
    rendered: Option<&str>,
    nonce: Seq<char>,
)
    ensures
        ({
            let view = shared_view(doc, format, if_none_match, rendered, nonce);
            let tag = shared_tag(time::rfc3339_millis(doc.updated_at@ as i64), format);
            &&& view.status == 304 || view.status == 200
            &&& view.status == 304 <==> format != BodyFormat::Html && (header::readable(
                if_none_match,
            ) matches Some(h) && header::names_tag(h, tag))
            &&& view.status == 304 ==> view.body.len() == 0
            &&& format != BodyFormat::Html ==> view.headers.contains(("etag"@, tag))
            &&& format == BodyFormat::Html ==> view.headers.contains(
                ("cache-control"@, "private, no-store"@),
            )
            &&& view.status == 200 ==> view.headers.contains(("x-content-type-options"@, "nosniff"@))
        }),
{
    let view = shared_view(doc, format, if_none_match, rendered, nonce);
    let tag = shared_tag(time::rfc3339_millis(doc.updated_at@ as i64), format);
    if view.status == 304 {
        assert(view.headers[0] == ("etag"@, tag));
    } else if format == BodyFormat::Html {
        assert(view.headers[2] == ("cache-control"@, "private, no-store"@));
        assert(view.headers[3] == ("x-content-type-options"@, "nosniff"@));
    } else {
        assert(view.headers[3] == ("etag"@, tag));
        assert(view.headers[4] == ("x-content-type-options"@, "nosniff"@));
    }
}

/// What was rendered is what is sent: as it is where no page is asked for, and on a page under the
/// title of the document, which opens no tag.
pub proof fn law_rendered_body_is_shown(
    doc: SharedDocument,
    format: BodyFormat,
    if_none_match: Option<&[u8]>,
    rendered: &str,
    nonce: Seq<char>,
)
    ensures
        ({
            let view = shared_view(doc, format, if_none_match, Some(rendered), nonce);
            &&& view.status == 200 && format != BodyFormat::Html ==> view.body == rendered@
            &&& format == BodyFormat::Html ==> text::occurs(view.body, rendered@) && text::occurs(
                view.body,
                "<title>"@ + text::html_text(doc.title@) + "</title>"@,
            )
        }),
{
    if format == BodyFormat::Html {
        let title = text::html_text(doc.title@);
        let front = page_start() + title + "</title>\n<style nonce=\""@ + text::html_text(nonce)
            + page_style();
        let body = share_page(doc.title@, rendered@, nonce);
        let at = front.len() as int;
        assert(body.subrange(at, at + rendered@.len()) =~= rendered@);
        assert(text::occurs_at(body, rendered@, at));
        lemma_page_opens_a_title();
        reveal_strlit("<title>");
        reveal_strlit("</title>");
        reveal_strlit("</title>\n<style nonce=\"");
        let from = page_start().len() - 7;
        let shown_title = "<title>"@ + title + "</title>"@;
        assert(body.subrange(from, from + shown_title.len()) =~= shown_title);
        assert(text::occurs_at(body, shown_title, from));
    }
}

proof fn lemma_page_opens_a_title()
    ensures
        page_start().len() >= 7,
        forall|i: int|
            0 <= i < 7 ==> page_start()[page_start().len() - 7 + i] == #[trigger] "<title>"@[i],
{
    reveal_strlit("<title>");
    reveal_strlit(
        "<!DOCTYPE html>\n<html lang=\"ko\">\n<head>\n<meta charset=\"utf-8\"/>\n<meta name=\"viewport\" content=\"width=device-width, initial-scale=1\"/>\n<meta name=\"referrer\" content=\"no-referrer\"/>\n<title>",
    );
}

/// Each value of a share link is answered under the name that it is kept by.
pub proof fn law_share_link_is_answered_as_kept(row: ShareLinkRecord, out: ShareLinkOutput)
    requires
        row.answered(&out),
    ensures
        ids::uuid_of(out.id@) == Some(row.id.0),
        ids::uuid_of(out.workspace_id@) == Some(row.workspace_id.0),
        match (row.document_id, out.document_id) {
            (Some(id), Some(s)) => ids::uuid_of(s@) == Some(id.0),
            (None, None) => true,
            _ => false,
        },
        match (row.project_id, out.project_id) {
            (Some(id), Some(s)) => ids::uuid_of(s@) == Some(id.0),
            (None, None) => true,
            _ => false,
        },
        out.expires_at@ == time::rfc3339_millis(row.expires_at@ as i64),
        out.created_at@ == time::rfc3339_millis(row.created_at@ as i64),
{
    ids::law_uuid_round_trip(row.id.0);
    ids::law_uuid_round_trip(row.workspace_id.0);
    if let Some(id) = row.document_id {
        ids::law_uuid_round_trip(id.0);
    }
    if let Some(id) = row.project_id {
        ids::law_uuid_round_trip(id.0);
    }
}

/// Each value of a share public meta is answered under the name that it is kept by.
pub proof fn law_share_public_meta_is_answered_as_kept(
    row: SharePublicMeta,
    out: SharePublicMetaOutput,
)
    requires
        row.answered(&out),
    ensures
        out.title@ == row.title@,
        match (row.document_id, out.document_id) {
            (Some(id), Some(s)) => ids::uuid_of(s@) == Some(id.0),
            (None, None) => true,
            _ => false,
        },
        match (row.project_id, out.project_id) {
            (Some(id), Some(s)) => ids::uuid_of(s@) == Some(id.0),
            (None, None) => true,
            _ => false,
        },
        out.expires_at@ == time::rfc3339_millis(row.expires_at@ as i64),
{
    if let Some(id) = row.document_id {
        ids::law_uuid_round_trip(id.0);
    }
    if let Some(id) = row.project_id {
        ids::law_uuid_round_trip(id.0);
    }
}

/// A link is made for the one thing that was named, a document or a project, by its id.
pub proof fn law_link_is_made_for_what_was_named(
    document_id: Option<&str>,
    project_id: Option<&str>,
    r: Result<ShareTarget, AppError>,
)
    requires
        call_ensures(share_target, (document_id, project_id), r),
    ensures
        match r {
            Ok(ShareTarget::Document(id)) => project_id is None && (document_id matches Some(d)
                && ids::uuid_of(d@) == Some(id.0)),
            Ok(ShareTarget::Project(id)) => document_id is None && (project_id matches Some(p)
                && ids::uuid_of(p@) == Some(id.0)),
            Err(_) => true,
        },
        document_id is Some && project_id is Some ==> r is Err,
        document_id is None && project_id is None ==> r is Err,
{
}

/// A file behind a link is sent whole, from its first byte to its last, and its length is said.
pub proof fn law_shared_file_is_sent_whole(
    size: i64,
    disposition: &str,
    r: Result<FileReply, AppError>,
)
    requires
        call_ensures(shared_file, (Some(size), disposition), r),
        size > 0,
    ensures
        r is Ok <==> header::sendable(disposition@),
        r matches Ok(reply) ==> (reply@ matches FileReplyView::File { status, headers, bytes }
            && status == 200 && bytes == Some((0u64, (size - 1) as u64)) && headers.contains(
            ("content-length"@, text::decimal(size as nat)),
        ) && headers.contains(("content-disposition"@, disposition@)) && headers.contains(
            ("content-type"@, "application/octet-stream"@),
        ) && headers.contains(("content-security-policy"@, "sandbox"@))),
{
    let h = shared_file_headers(disposition@, size);
    assert(h[1] == ("content-security-policy"@, "sandbox"@));
    assert(h[3] == ("content-type"@, "application/octet-stream"@));
    assert(h[4] == ("content-disposition"@, disposition@));
    assert(h[5] == ("content-length"@, text::decimal(size as nat)));
}

/// A link is the same whether the origin ends with slashes or not, and two links are the same only
/// where their tokens are.
pub proof fn law_share_link_carries_its_token(origin: Seq<char>, a: Seq<char>, b: Seq<char>)
    ensures
        share_link(origin.push('/'), a) == share_link(origin, a),
        share_link(origin, a) == share_link(origin, b) <==> a == b,
        text::ends(share_link(origin, a), "/s/"@ + a),
{
    assert(origin.push('/').drop_last() =~= origin);
    let front = text::without_trailing(origin, '/') + "/s/"@;
    let s = front + a;
    let t = front + b;
    assert(s.subrange(front.len() as int, s.len() as int) =~= a);
    assert(t.subrange(front.len() as int, t.len() as int) =~= b);
    let tail = "/s/"@ + a;
    assert(s.subrange(s.len() - tail.len(), s.len() as int) =~= tail);
}

/// What one address is told by this limit does not depend on the requests of another: `enforce_share_limit`
/// answers `b` alike behind a request of `a` and without it.
pub proof fn law_enforce_share_limit_is_one_for_each_address(
    first: &mut RateLimiter,
    second: &mut RateLimiter,
    alone: &mut RateLimiter,
    a: &str,
    b: &str,
    now: u64,
    later: u64,
    told_a: Result<(), AppError>,
    told_b: Result<(), AppError>,
    told_alone: Result<(), AppError>,
)
    requires
        first.wf(),
        second.wf(),
        alone.wf(),
        a@ != b@,
        old(first)@.dom().len() < rate_limit::MAX_KEYS,
        old(second)@ == final(first)@,
        old(alone)@ == old(first)@,
        call_ensures(enforce_share_limit, (first, a, now), told_a),
        call_ensures(enforce_share_limit, (second, b, later), told_b),
        call_ensures(enforce_share_limit, (alone, b, later), told_alone),
    ensures
        told_b is Ok <==> told_alone is Ok,
        error::told(told_b) == error::told(told_alone),
{
    rate_limit::lemma_keys_apart("share-ip:"@, a@, b@);
    rate_limit::lemma_other_keys_stay(
        old(first)@,
        final(first)@,
        "share-ip:"@ + a@,
        SHARE_IP_LIMIT,
        SHARE_IP_WINDOW,
        now,
        "share-ip:"@ + b@,
    );
}

/// What a shell shows of a link is shown only where the link is known, allowed and links are in use,
/// and then what the store has.
pub proof fn law_shell_shows_only_what_is_shared<T>(
    known: bool,
    allowed: bool,
    enabled: bool,
    meta: Option<T>,
    r: Result<Option<T>, AppError>,
)
    requires
        call_ensures(shell_head_meta::<T>, (known, allowed, Ok(enabled), Ok(meta)), r),
    ensures
        r is Ok,
        r->Ok_0 == if known && allowed && enabled {
            meta
        } else {
            None
        },
{
}

/// A document that was printed is sent as a file to be kept by no one else; one that is too large or
/// comes at a busy time is told as such, and when to try again.
pub proof fn law_printed_document_is_sent(
    rendered: Result<(), PdfFailure>,
    disposition: &str,
    r: Result<PdfReply, AppError>,
)
    requires
        call_ensures(pdf_reply, (rendered, disposition), r),
        header::sendable(disposition@),
    ensures
        rendered is Ok <==> r is Ok && r->Ok_0 is File,
        r matches Ok(PdfReply::File { headers }) ==> {
            let h = header::header_views(r->Ok_0->headers@);
            &&& h.contains(("content-type"@, "application/pdf"@))
            &&& h.contains(("content-disposition"@, disposition@))
            &&& h.contains(("cache-control"@, "private, no-store"@))
            &&& h.contains(("content-security-policy"@, "sandbox"@))
        },
        rendered == Err::<(), _>(PdfFailure::Busy) ==> (r matches Ok(PdfReply::Problem(reply))
            && reply.status == 503),
        rendered == Err::<(), _>(PdfFailure::TooLarge) ==> (r matches Ok(PdfReply::Problem(reply))
            && reply.status == 413),
{
    let h = pdf_headers(disposition@);
    assert(h[1] == ("cache-control"@, "private, no-store"@));
    assert(h[2] == ("content-disposition"@, disposition@));
    assert(h[3] == ("content-type"@, "application/pdf"@));
    assert(h[4] == ("content-security-policy"@, "sandbox"@));
}

} // verus!
