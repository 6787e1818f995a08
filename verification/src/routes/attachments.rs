//! Files: uploads in parts, downloads with ranges, previews.

use vstd::prelude::*;
use vstd::string::*;
use crate::authz;
use crate::authz::{ApiTokenScope, RequestAuth, grants_api_token_scope};
use crate::error;
use crate::error::{AppError, DbFailure, ProblemCode};
use crate::guard;
use crate::guard::check_origin;
use crate::header;
use crate::header::{Header, can_send, if_none_matches, not_modified, put, read_header, to_ascii_lower};
use crate::ids;
use crate::ids::Uuid;
use crate::number;
use crate::rate_limit;
use crate::rate_limit::{RateLimiter, WINDOW, charge};
use crate::text;
use crate::text::{
    contains,
    decimal_string,
    ends_with,
    escape_html,
    join2,
    join3,
    join4,
    same,
    signed_decimal_string,
    trim,
    utf16_prefix,
    utf16_within,
};
use crate::time::Timestamp;

verus! {

/// The most parts of an upload, and the highest number of one.
pub const MAX_PARTS: usize = 10_000;

/// Seconds after which to try again where no slot for a part was free.
pub const PART_SLOT_RETRY_AFTER_SECS: u32 = 2;

/// The UTF-16 code units of a text that its preview shows.
pub const EXTRACT_PREVIEW_MAX_CHARS: usize = 64_000;

/// Previews of texts that one user may ask for within a minute.
pub const PREVIEW_HTML_PER_MINUTE: u32 = 60;

pub const PREVIEW_HTML_WINDOW: u64 = 60_000_000_000;

/// Why the store refused something about a file.
#[derive(Clone, Copy, Debug, PartialEq, Eq, Structural)]
pub enum AttachmentDbError {
    NotFound,
    Forbidden,
    UploadForbidden,
    UploadState,
    TooLarge,
    PartTooLarge,
    InvalidInput,
    NotHwp,
    EtagMismatch,
    Infected,
    ProjectArchived,
    TaskArchived,
    StorageLimit,
    UploadLimit,
}

/// The problem that a refusal of the store ends in.
pub open spec fn attachment_code(err: AttachmentDbError) -> ProblemCode {
    match err {
        AttachmentDbError::NotFound => ProblemCode::NotFound,
        AttachmentDbError::Forbidden => ProblemCode::NotFound,
        AttachmentDbError::UploadForbidden => ProblemCode::OnlyTheUploaderMayContinueThisUpload,
        AttachmentDbError::UploadState => ProblemCode::UploadIsNotInTheRequiredState,
        AttachmentDbError::TooLarge => ProblemCode::FileExceedsUploadMaxFileSizeMb,
        AttachmentDbError::PartTooLarge => ProblemCode::PartExceedsUploadPartSizeMb,
        AttachmentDbError::InvalidInput => ProblemCode::InvalidInput,
        AttachmentDbError::NotHwp => ProblemCode::InvalidInput,
        AttachmentDbError::EtagMismatch => ProblemCode::SubmittedPartsDoNotMatchUploadedParts,
        AttachmentDbError::Infected => ProblemCode::AttachmentFailedVirusScan,
        AttachmentDbError::ProjectArchived => ProblemCode::ProjectArchived,
        AttachmentDbError::TaskArchived => ProblemCode::TaskArchived,
        AttachmentDbError::StorageLimit => ProblemCode::LimitStorage,
        AttachmentDbError::UploadLimit => ProblemCode::LimitUpload,
    }
}

pub fn map_attachment_error(err: AttachmentDbError) -> (r: AppError)
    ensures
        r@ == error::problem(attachment_code(err)),
{
    let code = match err {
        AttachmentDbError::NotFound => ProblemCode::NotFound,
        AttachmentDbError::Forbidden => ProblemCode::NotFound,
        AttachmentDbError::UploadForbidden => ProblemCode::OnlyTheUploaderMayContinueThisUpload,
        AttachmentDbError::UploadState => ProblemCode::UploadIsNotInTheRequiredState,
        AttachmentDbError::TooLarge => ProblemCode::FileExceedsUploadMaxFileSizeMb,
        AttachmentDbError::PartTooLarge => ProblemCode::PartExceedsUploadPartSizeMb,
        AttachmentDbError::InvalidInput => ProblemCode::InvalidInput,
        AttachmentDbError::NotHwp => ProblemCode::InvalidInput,
        AttachmentDbError::EtagMismatch => ProblemCode::SubmittedPartsDoNotMatchUploadedParts,
        AttachmentDbError::Infected => ProblemCode::AttachmentFailedVirusScan,
        AttachmentDbError::ProjectArchived => ProblemCode::ProjectArchived,
        AttachmentDbError::TaskArchived => ProblemCode::TaskArchived,
        AttachmentDbError::StorageLimit => ProblemCode::LimitStorage,
        AttachmentDbError::UploadLimit => ProblemCode::LimitUpload,
    };
    AppError::from_code(code)
}

/// What the store made of a request about a file.
pub fn attachment_result<T>(found: Result<Result<T, AttachmentDbError>, DbFailure>) -> (r: Result<
    T,
    AppError,
>)
    ensures
        match found {
            Err(_) => error::refused(r, ProblemCode::Internal),
            Ok(Err(err)) => error::refused(r, attachment_code(err)),
            Ok(Ok(t)) => r == Ok::<T, AppError>(t),
        },
{
    match found {
        Err(_) => Err(AppError::internal()),
        Ok(Err(err)) => Err(map_attachment_error(err)),
        Ok(Ok(t)) => Ok(t),
    }
}

/// Why the storage did not take a part.
#[derive(Clone, Copy, Debug, PartialEq, Eq, Structural)]
pub enum StorageError {
    PartTooLarge,
    UploadGone,
    InvalidKey,
    EtagMismatch,
    PartTooSmall,
    LengthRequired,
    LengthMismatch,
    /// The body broke off.
    ClientBody,
    Other,
}

/// The problem that a failure of the storage ends in. What the client did is told as such.
pub open spec fn storage_code(err: StorageError) -> ProblemCode {
    match err {
        StorageError::PartTooLarge => ProblemCode::PartExceedsUploadPartSizeMb,
        StorageError::UploadGone => ProblemCode::UploadIsNotInTheRequiredState,
        StorageError::InvalidKey => ProblemCode::UploadIsNotInTheRequiredState,
        StorageError::EtagMismatch => ProblemCode::SubmittedPartsDoNotMatchUploadedParts,
        StorageError::PartTooSmall => ProblemCode::SubmittedPartsDoNotMatchUploadedParts,
        StorageError::LengthRequired => ProblemCode::InvalidInput,
        StorageError::LengthMismatch => ProblemCode::InvalidInput,
        StorageError::ClientBody => ProblemCode::InvalidInput,
        StorageError::Other => ProblemCode::Internal,
    }
}

pub fn map_storage_error(err: StorageError) -> (r: AppError)
    ensures
        r@ == error::problem(storage_code(err)),
{
    match err {
        StorageError::PartTooLarge => AppError::from_code(ProblemCode::PartExceedsUploadPartSizeMb),
        StorageError::UploadGone => AppError::from_code(ProblemCode::UploadIsNotInTheRequiredState),
        StorageError::InvalidKey => AppError::from_code(ProblemCode::UploadIsNotInTheRequiredState),
        StorageError::EtagMismatch => AppError::from_code(
            ProblemCode::SubmittedPartsDoNotMatchUploadedParts,
        ),
        StorageError::PartTooSmall => AppError::from_code(
            ProblemCode::SubmittedPartsDoNotMatchUploadedParts,
        ),
        StorageError::LengthRequired => AppError::from_code(ProblemCode::InvalidInput),
        StorageError::LengthMismatch => AppError::from_code(ProblemCode::InvalidInput),
        StorageError::ClientBody => AppError::from_code(ProblemCode::InvalidInput),
        StorageError::Other => AppError::internal(),
    }
}

/// A preview image that was published.
#[derive(Debug)]
pub struct PreviewVariant {
    pub key: String,
    pub bytes: u64,
    pub width: u32,
    pub height: u32,
}

/// A file, as the store keeps it.
#[derive(Debug)]
pub struct AttachmentRow {
    pub id: Uuid,
    pub name: String,
    pub mime: String,
    pub size_bytes: Option<i64>,
    pub image: bool,
    pub scan_status: String,
    pub storage_key: String,
    pub created_at: Timestamp,
    pub completed_at: Option<Timestamp>,
    pub preview: Option<PreviewVariant>,
}

/// The size of a preview image.
#[derive(Clone, Copy, Debug, PartialEq, Eq, Structural)]
pub struct AttachmentPreviewResponse {
    pub width: i32,
    pub height: i32,
}

/// A file as it is answered.
#[derive(Debug)]
pub struct AttachmentOutput {
    pub id: String,
    pub name: String,
    pub mime: String,
    pub size_bytes: Option<i64>,
    pub image: bool,
    pub scan_status: String,
    pub created_at: Timestamp,
    pub completed_at: Option<Timestamp>,
    pub preview: Option<AttachmentPreviewResponse>,
}

/// The answer about a file.
pub open spec fn answers_file(att: AttachmentRow, out: AttachmentOutput) -> bool {
    &&& out.id@ == ids::uuid_text(att.id.0)
    &&& out.name == att.name
    &&& out.mime == att.mime
    &&& out.size_bytes == att.size_bytes
    &&& out.image == att.image
    &&& out.scan_status == att.scan_status
    &&& out.created_at == att.created_at
    &&& out.completed_at == att.completed_at
    &&& out.preview == match att.preview {
        Some(p) => Some(
            AttachmentPreviewResponse { width: p.width as i32, height: p.height as i32 },
        ),
        None => None,
    }
}

pub fn attachment_output(att: &AttachmentRow) -> (r: AttachmentOutput)
    ensures
        answers_file(*att, r),
{
    AttachmentOutput {
        id: att.id.text(),
        name: att.name.clone(),
        mime: att.mime.clone(),
        size_bytes: att.size_bytes,
        image: att.image,
        scan_status: att.scan_status.clone(),
        created_at: att.created_at,
        completed_at: att.completed_at,
        preview: match &att.preview {
            Some(p) => Some(
                AttachmentPreviewResponse {
                    width: #[verifier::truncate] (p.width as i32),
                    height: #[verifier::truncate] (p.height as i32),
                },
            ),
            None => None,
        },
    }
}

/// The answers about files, one for each.
pub fn attachment_list(rows: &[AttachmentRow]) -> (r: Vec<AttachmentOutput>)
    ensures
        r@.len() == rows@.len(),
        forall|i: int| 0 <= i < rows@.len() ==> answers_file(#[trigger] rows@[i], r@[i]),
{
    let mut out: Vec<AttachmentOutput> = Vec::new();
    let mut i: usize = 0;
    while i < rows.len()
        invariant
            i <= rows@.len(),
            out@.len() == i,
            forall|j: int| 0 <= j < i ==> answers_file(#[trigger] rows@[j], out@[j]),
        decreases rows.len() - i,
    {
        out.push(attachment_output(&rows[i]));
        i = i + 1;
    }
    out
}

/// The body of a request to upload a file.
#[derive(Debug)]
pub struct CreateAttachmentUploadBody {
    pub name: String,
    pub size_bytes: i64,
    pub declared_mime: Option<String>,
}

/// A name of one to 255 UTF-16 code units, some bytes, and a media type that is not too long.
pub open spec fn upload_fits(body: CreateAttachmentUploadBody) -> bool {
    &&& body.name@.len() > 0
    &&& text::utf16_units(body.name@) <= 255
    &&& body.size_bytes > 0
    &&& body.declared_mime matches Some(mime) ==> text::utf16_units(mime@) <= 255
}

pub fn validate_create_upload(body: &CreateAttachmentUploadBody) -> (r: Result<(), AppError>)
    ensures
        r is Ok <==> upload_fits(*body),
        r is Err ==> error::refused(r, ProblemCode::InvalidInput),
{
    if body.name.as_str().unicode_len() == 0 || !utf16_within(body.name.as_str(), 255)
        || body.size_bytes <= 0 {
        return Err(AppError::from_code(ProblemCode::InvalidInput));
    }
    if let Some(mime) = &body.declared_mime {
        if !utf16_within(mime.as_str(), 255) {
            return Err(AppError::from_code(ProblemCode::InvalidInput));
        }
    }
    Ok(())
}

/// A part that an upload is completed with.
#[derive(Debug)]
pub struct AttachmentCompletePartBody {
    pub part_number: i32,
    pub etag: String,
}

/// A part number that can be, with a tag of one to 128 UTF-16 code units.
pub open spec fn part_fits(part: AttachmentCompletePartBody) -> bool {
    1 <= part.part_number <= MAX_PARTS && part.etag@.len() > 0 && text::utf16_units(part.etag@)
        <= 128
}

pub fn validate_complete_parts(parts: &[AttachmentCompletePartBody]) -> (r: Result<(), AppError>)
    ensures
        r is Ok <==> 1 <= parts@.len() <= MAX_PARTS && forall|i: int|
            0 <= i < parts@.len() ==> part_fits(#[trigger] parts@[i]),
        r is Err ==> error::refused(r, ProblemCode::InvalidInput),
{
    if parts.len() == 0 || parts.len() > MAX_PARTS {
        return Err(AppError::from_code(ProblemCode::InvalidInput));
    }
    let mut i: usize = 0;
    while i < parts.len()
        invariant
            i <= parts@.len(),
            forall|j: int| 0 <= j < i ==> part_fits(#[trigger] parts@[j]),
        decreases parts.len() - i,
    {
        let n: i32 = parts[i].part_number;
        if n < 1 || n > 10_000 {
            assert(!part_fits(parts@[i as int]));
            return Err(AppError::from_code(ProblemCode::InvalidInput));
        }
        let etag = parts[i].etag.as_str();
        if etag.unicode_len() == 0 || !utf16_within(etag, 128) {
            assert(!part_fits(parts@[i as int]));
            return Err(AppError::from_code(ProblemCode::InvalidInput));
        }
        i = i + 1;
    }
    Ok(())
}

/// Which file a download asks for: the preview, or the original.
pub fn wants_preview(variant: Option<&str>) -> (r: Result<bool, AppError>)
    ensures
        match variant {
            None => r == Ok::<_, AppError>(false),
            Some(v) => if v@ == "preview"@ {
                r == Ok::<_, AppError>(true)
            } else {
                error::refused(r, ProblemCode::InvalidInput)
            },
        },
{
    match variant {
        None => Ok(false),
        Some(v) => if same(v, "preview") {
            Ok(true)
        } else {
            Err(AppError::from_code(ProblemCode::InvalidInput))
        },
    }
}

/// The bytes of a file that a request asks for.
#[derive(Clone, Copy, Debug, PartialEq, Eq, Structural)]
pub enum ParsedRange {
    Invalid,
    Full,
    Bytes { start: u64, end: u64 },
}

/// The bytes lie in a file of this size.
pub open spec fn range_within(range: ParsedRange, size: u64) -> bool {
    range matches ParsedRange::Bytes { start, end } ==> start <= end < size
}

/// The answer to a request for a file.
#[derive(Debug)]
pub enum FileReply {
    /// The client has it.
    NotModified { headers: Vec<Header> },
    /// A problem, with headers of its own.
    Unsatisfiable { problem: AppError, headers: Vec<Header> },
    /// The file, or with `bytes` missing only what goes before it.
    File { status: u16, headers: Vec<Header>, bytes: Option<(u64, u64)> },
}

/// The contents of a `FileReply`.
pub enum FileReplyView {
    NotModified { headers: Seq<(Seq<char>, Seq<char>)> },
    Unsatisfiable { problem: error::ErrorView, headers: Seq<(Seq<char>, Seq<char>)> },
    File {
        status: u16,
        headers: Seq<(Seq<char>, Seq<char>)>,
        bytes: Option<(u64, u64)>,
    },
}

impl View for FileReply {
    type V = FileReplyView;

    open spec fn view(&self) -> FileReplyView {
        match self {
            FileReply::NotModified { headers } => FileReplyView::NotModified {
                headers: header::header_views(headers@),
            },
            FileReply::Unsatisfiable { problem, headers } => FileReplyView::Unsatisfiable {
                problem: problem@,
                headers: header::header_views(headers@),
            },
            FileReply::File { status, headers, bytes } => FileReplyView::File {
                status: *status,
                headers: header::header_views(headers@),
                bytes: *bytes,
            },
        }
    }
}

/// How a preview may be kept; the same whether it is sent or unchanged.
pub open spec fn preview_cache_control() -> Seq<char> {
    "private, max-age=3600"@
}

/// `bytes */size`
pub open spec fn range_refused(size: int) -> Seq<char> {
    "bytes */"@ + text::signed_decimal(size)
}

/// `bytes start-end/size`
pub open spec fn range_sent(start: u64, end: u64, size: int) -> Seq<char> {
    "bytes "@ + text::decimal(start as nat) + "-"@ + text::decimal(end as nat) + "/"@
        + text::signed_decimal(size)
}

/// `size` is a number in decimal.
fn write_range_refused(size: &str) -> (r: String)
    ensures
        r@ == "bytes */"@ + size@,
{
    join2("bytes */", size)
}

/// `size` is a number in decimal.
fn write_range_sent(start: u64, end: u64, size: &str) -> (r: String)
    ensures
        r@ == "bytes "@ + text::decimal(start as nat) + "-"@ + text::decimal(end as nat) + "/"@
            + size@,
{
    let a = decimal_string(start);
    let b = decimal_string(end);
    let mut out = join4("bytes ", a.as_str(), "-", b.as_str());
    out.append("/");
    out.append(size);
    out
}

/// A size as the storage counts it: one below nothing lies as far below the largest.
pub open spec fn storage_size(size: i64) -> u64 {
    if size >= 0 {
        size as u64
    } else {
        (size + 0x1_0000_0000_0000_0000) as u64
    }
}

/// The last byte of a file of this size, as the storage counts.
pub open spec fn last_byte(size: i64) -> u64 {
    if storage_size(size) == 0 {
        0
    } else {
        (storage_size(size) - 1) as u64
    }
}

/// The last byte of a file of this size, as the storage counts.
pub fn last_of(size: i64) -> (r: u64)
    ensures
        r == last_byte(size),
{
    let counted: u64 = #[verifier::truncate] (size as u64);
    assert(size >= 0 ==> size as u64 == size) by (bit_vector);
    assert(size < 0 ==> size as u64 == size + 0x1_0000_0000_0000_0000) by (bit_vector);
    if counted == 0 {
        0
    } else {
        counted - 1
    }
}

/// The headers that go before a preview.
pub open spec fn preview_headers(tag: Seq<char>, ranges: bool) -> Seq<(Seq<char>, Seq<char>)> {
    let base = seq![
        ("x-content-type-options"@, "nosniff"@),
        ("content-security-policy"@, "sandbox"@),
        ("etag"@, tag),
        ("cache-control"@, preview_cache_control()),
        ("content-type"@, "image/webp"@),
        ("content-disposition"@, "inline"@),
    ];
    if ranges {
        base.push(("accept-ranges"@, "bytes"@))
    } else {
        base
    }
}

/// The answer to a request for a preview with this tag: nothing new to a client that has it, else
/// the bytes asked for, where ranges are served, or all of them.
pub open spec fn preview_reply(
    tag: Seq<char>,
    size: u64,
    if_none_match: Option<&[u8]>,
    range: ParsedRange,
    head_only: bool,
    ranges: bool,
) -> FileReplyView {
    let base = preview_headers(tag, ranges);
    let known = match header::readable(if_none_match) {
        Some(h) => header::names_tag(h, tag),
        None => false,
    };
    if known {
        FileReplyView::NotModified {
            headers: header::unchanged_headers(tag, preview_cache_control()),
        }
    } else {
        match if ranges {
            range
        } else {
            ParsedRange::Full
        } {
            ParsedRange::Invalid => FileReplyView::Unsatisfiable {
                problem: error::problem(ProblemCode::RangeNotSatisfiable),
                headers: seq![("content-range"@, range_refused(size as int))],
            },
            ParsedRange::Full => {
                let end = if size == 0 {
                    0
                } else {
                    (size - 1) as u64
                };
                FileReplyView::File {
                    status: 200,
                    headers: base.push(("content-length"@, text::decimal((end + 1) as nat))),
                    bytes: if head_only {
                        None
                    } else {
                        Some((0u64, end))
                    },
                }
            },
            ParsedRange::Bytes { start, end } => FileReplyView::File {
                status: 206,
                headers: base.push(("content-range"@, range_sent(start, end, size as int))).push(
                    ("content-length"@, text::decimal((end - start + 1) as nat)),
                ),
                bytes: if head_only {
                    None
                } else {
                    Some((start, end))
                },
            },
        }
    }
}

/// Serves a preview. `tag` is its tag; one that cannot be sent is an internal problem.
pub fn serve_preview(
    tag: &str,
    size: u64,
    if_none_match: Option<&[u8]>,
    range: ParsedRange,
    head_only: bool,
    ranges: bool,
) -> (r: Result<FileReply, AppError>)
    requires
        range_within(range, size),
    ensures
        match r {
            Ok(reply) => header::sendable(tag@) && reply@ == preview_reply(
                tag@,
                size,
                if_none_match,
                range,
                head_only,
                ranges,
            ),
            Err(e) => !header::sendable(tag@) && e@ == error::problem(ProblemCode::Internal),
        },
{
    if !can_send(tag) {
        return Err(AppError::internal());
    }
    if if_none_matches(if_none_match, tag) {
        return Ok(FileReply::NotModified { headers: not_modified(tag, "private, max-age=3600") });
    }
    let mut headers: Vec<Header> = Vec::new();
    assert(header::header_views(headers@) == Seq::<(Seq<char>, Seq<char>)>::empty());
    put(&mut headers, "x-content-type-options", "nosniff");
    put(&mut headers, "content-security-policy", "sandbox");
    put(&mut headers, "etag", tag);
    put(&mut headers, "cache-control", "private, max-age=3600");
    put(&mut headers, "content-type", "image/webp");
    put(&mut headers, "content-disposition", "inline");
    if ranges {
        put(&mut headers, "accept-ranges", "bytes");
    }
    assert(header::header_views(headers@) == preview_headers(tag@, ranges));
    let parsed = if ranges {
        range
    } else {
        ParsedRange::Full
    };
    match parsed {
        ParsedRange::Invalid => {
            let total = decimal_string(size);
            let refused = write_range_refused(total.as_str());
            let mut only: Vec<Header> = Vec::new();
            assert(header::header_views(only@) == Seq::<(Seq<char>, Seq<char>)>::empty());
            put(&mut only, "content-range", refused.as_str());
            Ok(
                FileReply::Unsatisfiable {
                    problem: AppError::from_code(ProblemCode::RangeNotSatisfiable),
                    headers: only,
                },
            )
        },
        ParsedRange::Full => {
            let end: u64 = if size == 0 {
                0
            } else {
                size - 1
            };
            let length = decimal_string(end + 1);
            put(&mut headers, "content-length", length.as_str());
            Ok(
                FileReply::File {
                    status: 200,
                    headers,
                    bytes: if head_only {
                        None
                    } else {
                        Some((0, end))
                    },
                },
            )
        },
        ParsedRange::Bytes { start, end } => {
            let total = decimal_string(size);
            let sent = write_range_sent(start, end, total.as_str());
            put(&mut headers, "content-range", sent.as_str());
            let length = decimal_string(end - start + 1);
            put(&mut headers, "content-length", length.as_str());
            Ok(
                FileReply::File {
                    status: 206,
                    headers,
                    bytes: if head_only {
                        None
                    } else {
                        Some((start, end))
                    },
                },
            )
        },
    }
}

/// The headers that go before a download, but for its media type.
pub open spec fn download_headers(disposition: Seq<char>) -> Seq<(Seq<char>, Seq<char>)> {
    seq![
        ("content-disposition"@, disposition),
        ("accept-ranges"@, "bytes"@),
        ("cache-control"@, "private, no-store"@),
        ("x-content-type-options"@, "nosniff"@),
        ("content-security-policy"@, "sandbox"@),
    ]
}

/// The media type of every download.
pub open spec fn download_type() -> (Seq<char>, Seq<char>) {
    ("content-type"@, "application/octet-stream"@)
}

/// The answer to a request for a file of this size.
pub open spec fn download_reply(
    disposition: Seq<char>,
    size: i64,
    range: ParsedRange,
    head_only: bool,
) -> FileReplyView {
    let base = seq![download_type()] + download_headers(disposition);
    match range {
        ParsedRange::Invalid => FileReplyView::Unsatisfiable {
            problem: error::problem(ProblemCode::RangeNotSatisfiable),
            headers: seq![("content-range"@, range_refused(size as int))] + download_headers(
                disposition,
            ),
        },
        ParsedRange::Full => FileReplyView::File {
            status: 200,
            headers: base.push(("content-length"@, text::signed_decimal(size as int))),
            bytes: if head_only {
                None
            } else {
                Some((0u64, last_byte(size)))
            },
        },
        ParsedRange::Bytes { start, end } => FileReplyView::File {
            status: 206,
            headers: base.push(("content-range"@, range_sent(start, end, size as int))).push(
                ("content-length"@, text::decimal((end - start + 1) as nat)),
            ),
            bytes: if head_only {
                None
            } else {
                Some((start, end))
            },
        },
    }
}

/// Appends the headers that go before a download, but for its media type.
fn put_download_headers(headers: &mut Vec<Header>, disposition: &str)
    ensures
        header::header_views(final(headers)@) == header::header_views(old(headers)@)
            + download_headers(disposition@),
{
    let ghost before = header::header_views(headers@);
    put(headers, "content-disposition", disposition);
    put(headers, "accept-ranges", "bytes");
    put(headers, "cache-control", "private, no-store");
    put(headers, "x-content-type-options", "nosniff");
    put(headers, "content-security-policy", "sandbox");
    assert(header::header_views(headers@) =~= before + download_headers(disposition@));
}

/// Serves the original of a file. `disposition` is what names it to the client; one that cannot
/// be sent is an internal problem, and so is a file of unknown size.
pub fn serve_original(
    size: Option<i64>,
    disposition: &str,
    range: ParsedRange,
    head_only: bool,
) -> (r: Result<FileReply, AppError>)
    requires
        size matches Some(n) ==> range_within(range, storage_size(n)),
    ensures
        match r {
            Ok(reply) => header::sendable(disposition@) && (size matches Some(n) && reply@
                == download_reply(disposition@, n, range, head_only)),
            Err(e) => (size is None || !header::sendable(disposition@)) && e@ == error::problem(
                ProblemCode::Internal,
            ),
        },
{
    let size: i64 = match size {
        None => {
            return Err(AppError::internal());
        },
        Some(n) => n,
    };
    let total = signed_decimal_string(size);
    if !can_send(disposition) {
        return Err(AppError::internal());
    }
    let mut headers: Vec<Header> = Vec::new();
    assert(header::header_views(headers@) == Seq::<(Seq<char>, Seq<char>)>::empty());
    match range {
        ParsedRange::Invalid => {
            let refused = write_range_refused(total.as_str());
            put(&mut headers, "content-range", refused.as_str());
            put_download_headers(&mut headers, disposition);
            assert(header::header_views(headers@) =~= seq![
                ("content-range"@, range_refused(size as int)),
            ] + download_headers(disposition@));
            Ok(
                FileReply::Unsatisfiable {
                    problem: AppError::from_code(ProblemCode::RangeNotSatisfiable),
                    headers,
                },
            )
        },
        ParsedRange::Full => {
            put(&mut headers, "content-type", "application/octet-stream");
            put_download_headers(&mut headers, disposition);
            assert(header::header_views(headers@) =~= seq![download_type()] + download_headers(
                disposition@,
            ));
            put(&mut headers, "content-length", total.as_str());
            let end: u64 = last_of(size);
            Ok(
                FileReply::File {
                    status: 200,
                    headers,
                    bytes: if head_only {
                        None
                    } else {
                        Some((0, end))
                    },
                },
            )
        },
        ParsedRange::Bytes { start, end } => {
            put(&mut headers, "content-type", "application/octet-stream");
            put_download_headers(&mut headers, disposition);
            assert(header::header_views(headers@) =~= seq![download_type()] + download_headers(
                disposition@,
            ));
            let sent = write_range_sent(start, end, total.as_str());
            put(&mut headers, "content-range", sent.as_str());
            let length = decimal_string(end - start + 1);
            put(&mut headers, "content-length", length.as_str());
            Ok(
                FileReply::File {
                    status: 206,
                    headers,
                    bytes: if head_only {
                        None
                    } else {
                        Some((start, end))
                    },
                },
            )
        },
    }
}

/// What a request for a file asks of the server: the variant, the range, and what the client has.
#[derive(Debug)]
pub struct DownloadAsk<'a> {
    pub variant: Option<&'a str>,
    pub if_none_match: Option<&'a [u8]>,
    pub head_only: bool,
}

/// What is known of a file that is served: the tag and range of its preview, and the naming,
/// size and range of its original.
#[derive(Debug)]
pub struct DownloadFile<'a> {
    pub preview: Option<(&'a str, u64, ParsedRange)>,
    pub disposition: &'a str,
    pub size: Option<i64>,
    pub range: ParsedRange,
}

/// The ranges lie in what they are of.
pub open spec fn ranges_within(file: DownloadFile) -> bool {
    &&& file.preview matches Some(p) ==> range_within(p.2, p.1)
    &&& file.size matches Some(n) ==> range_within(file.range, storage_size(n))
}

/// Serves a file: the preview where it is asked for and there is one, else the original.
pub fn serve_download(ask: DownloadAsk, file: DownloadFile) -> (r: Result<FileReply, AppError>)
    requires
        ranges_within(file),
    ensures
        match ask.variant {
            Some(v) => if v@ != "preview"@ {
                error::refused(r, ProblemCode::InvalidInput)
            } else {
                match file.preview {
                    None => error::refused(r, ProblemCode::NotFound),
                    Some(p) => if header::sendable(p.0@) {
                        r matches Ok(reply) && reply@ == preview_reply(
                            p.0@,
                            p.1,
                            ask.if_none_match,
                            p.2,
                            ask.head_only,
                            true,
                        )
                    } else {
                        error::refused(r, ProblemCode::Internal)
                    },
                }
            },
            None => match file.size {
                Some(n) => if header::sendable(file.disposition@) {
                    r matches Ok(reply) && reply@ == download_reply(
                        file.disposition@,
                        n,
                        file.range,
                        ask.head_only,
                    )
                } else {
                    error::refused(r, ProblemCode::Internal)
                },
                None => error::refused(r, ProblemCode::Internal),
            },
        },
{
    let preview: bool = match wants_preview(ask.variant) {
        Err(e) => {
            return Err(e);
        },
        Ok(p) => p,
    };
    if preview {
        match file.preview {
            None => Err(AppError::from_code(ProblemCode::NotFound)),
            Some((tag, size, range)) => serve_preview(
                tag,
                size,
                ask.if_none_match,
                range,
                ask.head_only,
                true,
            ),
        }
    } else {
        serve_original(file.size, file.disposition, file.range, ask.head_only)
    }
}

/// The address of a part.
pub open spec fn part_path(workspace_id: Uuid, attachment_id: Uuid, part_number: int) -> Seq<char> {
    "/api/v1/workspaces/"@ + ids::uuid_text(workspace_id.0) + "/attachments/"@ + ids::uuid_text(
        attachment_id.0,
    ) + "/parts/"@ + text::signed_decimal(part_number)
}

pub fn part_url(workspace_id: Uuid, attachment_id: Uuid, part_number: i32) -> (r: String)
    ensures
        r@ == part_path(workspace_id, attachment_id, part_number as int),
{
    let w = workspace_id.text();
    let a = attachment_id.text();
    let n = signed_decimal_string(part_number as i64);
    let mut out = join4("/api/v1/workspaces/", w.as_str(), "/attachments/", a.as_str());
    out.append("/parts/");
    out.append(n.as_str());
    out
}

/// A part to be uploaded, and where to.
#[derive(Debug)]
pub struct AttachmentPartUrlResponse {
    pub part_number: i32,
    pub url: String,
}

/// The part with this number and its address.
pub open spec fn is_part(
    part: AttachmentPartUrlResponse,
    workspace_id: Uuid,
    attachment_id: Uuid,
    number: int,
) -> bool {
    part.part_number == number && part.url@ == part_path(workspace_id, attachment_id, number)
}

/// The parts of a new upload, from the first to the last.
pub fn new_parts(workspace_id: Uuid, attachment_id: Uuid, part_count: i32) -> (r: Vec<
    AttachmentPartUrlResponse,
>)
    ensures
        r@.len() == if part_count > 0 {
            part_count as int
        } else {
            0
        },
        forall|i: int|
            0 <= i < r@.len() ==> is_part(#[trigger] r@[i], workspace_id, attachment_id, i + 1),
{
    let mut parts: Vec<AttachmentPartUrlResponse> = Vec::new();
    let mut n: i32 = 0;
    while n < part_count
        invariant
            0 <= n,
            n <= part_count || n == 0,
            parts@.len() == n,
            forall|i: int|
                0 <= i < n ==> is_part(#[trigger] parts@[i], workspace_id, attachment_id, i + 1),
        decreases part_count - n,
    {
        n = n + 1;
        parts.push(
            AttachmentPartUrlResponse {
                part_number: n,
                url: part_url(workspace_id, attachment_id, n),
            },
        );
    }
    parts
}

/// The parts of an upload that are still missing.
pub fn remaining_parts(workspace_id: Uuid, attachment_id: Uuid, remaining: &[i32]) -> (r: Vec<
    AttachmentPartUrlResponse,
>)
    ensures
        r@.len() == remaining@.len(),
        forall|i: int|
            0 <= i < r@.len() ==> is_part(
                #[trigger] r@[i],
                workspace_id,
                attachment_id,
                remaining@[i] as int,
            ),
{
    let mut parts: Vec<AttachmentPartUrlResponse> = Vec::new();
    let mut i: usize = 0;
    while i < remaining.len()
        invariant
            i <= remaining@.len(),
            parts@.len() == i,
            forall|j: int|
                0 <= j < i ==> is_part(
                    #[trigger] parts@[j],
                    workspace_id,
                    attachment_id,
                    remaining@[j] as int,
                ),
        decreases remaining.len() - i,
    {
        parts.push(
            AttachmentPartUrlResponse {
                part_number: remaining[i],
                url: part_url(workspace_id, attachment_id, remaining[i]),
            },
        );
        i = i + 1;
    }
    parts
}

/// Where a new upload belongs.
#[derive(Clone, Copy, Debug, PartialEq, Eq, Structural)]
pub enum UploadReservation {
    WikiDocument(Uuid),
    ProjectDocument { project_id: Uuid, document_id: Uuid },
    Task(Uuid),
    /// Beside a file, on the same parent.
    DerivedCopy { source_attachment_id: Uuid },
}

/// What a token needs to start an upload.
pub open spec fn upload_access(reservation: UploadReservation) -> authz::Access {
    match reservation {
        UploadReservation::WikiDocument(_) => authz::Access::Scope(ApiTokenScope::DocumentsWrite),
        UploadReservation::ProjectDocument { .. } => authz::Access::Scope(
            ApiTokenScope::DocumentsWrite,
        ),
        UploadReservation::Task(_) => authz::Access::Scope(ApiTokenScope::TasksWrite),
        UploadReservation::DerivedCopy { .. } => authz::Access::Any,
    }
}

pub fn access_for_upload(reservation: UploadReservation) -> (r: authz::Access)
    ensures
        r == upload_access(reservation),
{
    match reservation {
        UploadReservation::WikiDocument(_) => authz::Access::Scope(ApiTokenScope::DocumentsWrite),
        UploadReservation::ProjectDocument { .. } => authz::Access::Scope(
            ApiTokenScope::DocumentsWrite,
        ),
        UploadReservation::Task(_) => authz::Access::Scope(ApiTokenScope::TasksWrite),
        UploadReservation::DerivedCopy { .. } => authz::Access::Any,
    }
}

/// A request to upload as far as it can be judged before its caller is known: the origin, then
/// the body.
pub fn upload_entry(
    origin: Option<&[u8]>,
    public_origin: &str,
    body: &CreateAttachmentUploadBody,
) -> (r: Result<(), AppError>)
    ensures
        if !guard::origin_allowed(origin, public_origin@) {
            error::refused(r, ProblemCode::OriginMismatch)
        } else if !upload_fits(*body) {
            error::refused(r, ProblemCode::InvalidInput)
        } else {
            r is Ok
        },
{
    if let Err(e) = check_origin(origin, public_origin) {
        return Err(e);
    }
    validate_create_upload(body)
}

/// Charges a new upload to its user.
pub fn upload_limit(limiter: &mut RateLimiter, auth: &RequestAuth, per_window: u32, now: u64) -> (r:
    Result<(), AppError>)
    requires
        old(limiter).wf(),
    ensures
        final(limiter).wf(),
        rate_limit::charged_once(
            old(limiter)@,
            final(limiter)@,
            "upload_create:"@ + ids::uuid_text(auth.user_id.0),
            per_window,
            WINDOW,
            now,
            error::told(r),
        ),
{
    let user = auth.user_id.text();
    let key = join2("upload_create:", user.as_str());
    charge(limiter, key.as_str(), per_window, WINDOW, now)
}

/// The answer to a new upload.
#[derive(Debug)]
pub struct CreateAttachmentUploadResponse {
    pub attachment_id: String,
    pub part_size_bytes: i64,
    pub parts: Vec<AttachmentPartUrlResponse>,
}

/// How an upload is cut into parts.
#[derive(Clone, Copy, Debug, PartialEq, Eq, Structural)]
pub struct UploadMeta {
    pub part_size_bytes: i64,
    pub part_count: i32,
}

/// The answer to a new upload.
pub fn upload_created(
    workspace_id: Uuid,
    created: Result<Result<(Uuid, UploadMeta), AttachmentDbError>, DbFailure>,
) -> (r: Result<CreateAttachmentUploadResponse, AppError>)
    ensures
        match created {
            Err(_) => error::refused(r, ProblemCode::Internal),
            Ok(Err(err)) => error::refused(r, attachment_code(err)),
            Ok(Ok((id, meta))) => r matches Ok(out) && {
                &&& out.attachment_id@ == ids::uuid_text(id.0)
                &&& out.part_size_bytes == meta.part_size_bytes
                &&& out.parts@.len() == if meta.part_count > 0 {
                    meta.part_count as int
                } else {
                    0
                }
                &&& forall|i: int|
                    0 <= i < out.parts@.len() ==> is_part(
                        #[trigger] out.parts@[i],
                        workspace_id,
                        id,
                        i + 1,
                    )
            },
        },
{
    match attachment_result(created) {
        Err(e) => Err(e),
        Ok((id, meta)) => Ok(
            CreateAttachmentUploadResponse {
                attachment_id: id.text(),
                part_size_bytes: meta.part_size_bytes,
                parts: new_parts(workspace_id, id, meta.part_count),
            },
        ),
    }
}

/// What a file belongs to.
#[derive(Clone, Copy, Debug, PartialEq, Eq, Structural)]
pub enum AttachmentParent {
    Document(Uuid),
    Task(Uuid),
}

/// The scope that a token needs for a file of this parent.
pub open spec fn target_scope(parent: AttachmentParent, write: bool) -> ApiTokenScope {
    match (parent, write) {
        (AttachmentParent::Document(_), false) => ApiTokenScope::DocumentsRead,
        (AttachmentParent::Document(_), true) => ApiTokenScope::DocumentsWrite,
        (AttachmentParent::Task(_), false) => ApiTokenScope::TasksRead,
        (AttachmentParent::Task(_), true) => ApiTokenScope::TasksWrite,
    }
}

/// Whether the parent of a file matters to a request: only to one with a token.
pub fn target_scope_asked(auth: &RequestAuth) -> (r: bool)
    ensures
        r == auth.token_scopes is Some,
{
    auth.token_scopes.is_some()
}

/// A token needs the scope of what the file belongs to; sessions need none.
pub fn require_target_scope(
    auth: &RequestAuth,
    parent: Result<Option<AttachmentParent>, DbFailure>,
    write: bool,
) -> (r: Result<(), AppError>)
    ensures
        match auth.token_scopes {
            None => r is Ok,
            Some(scopes) => match parent {
                Err(_) => error::refused(r, ProblemCode::Internal),
                Ok(None) => error::refused(r, ProblemCode::NotFound),
                Ok(Some(p)) => if authz::granted(scopes@, target_scope(p, write)) {
                    r is Ok
                } else {
                    error::refused(r, ProblemCode::NotFound)
                },
            },
        },
{
    let scopes = match &auth.token_scopes {
        None => {
            return Ok(());
        },
        Some(scopes) => scopes,
    };
    let parent = match parent {
        Err(_) => {
            return Err(AppError::internal());
        },
        Ok(None) => {
            return Err(AppError::from_code(ProblemCode::NotFound));
        },
        Ok(Some(p)) => p,
    };
    let required = match (parent, write) {
        (AttachmentParent::Document(_), false) => ApiTokenScope::DocumentsRead,
        (AttachmentParent::Document(_), true) => ApiTokenScope::DocumentsWrite,
        (AttachmentParent::Task(_), false) => ApiTokenScope::TasksRead,
        (AttachmentParent::Task(_), true) => ApiTokenScope::TasksWrite,
    };
    if grants_api_token_scope(scopes.as_slice(), required) {
        Ok(())
    } else {
        Err(AppError::from_code(ProblemCode::NotFound))
    }
}

/// A request to upload a part as far as it can be judged before its caller is known.
pub fn part_entry(origin: Option<&[u8]>, public_origin: &str, part_number: i32) -> (r: Result<
    (),
    AppError,
>)
    ensures
        if !guard::origin_allowed(origin, public_origin@) {
            error::refused(r, ProblemCode::OriginMismatch)
        } else if !(1 <= part_number <= MAX_PARTS) {
            error::refused(r, ProblemCode::InvalidInput)
        } else {
            r is Ok
        },
{
    if let Err(e) = check_origin(origin, public_origin) {
        return Err(e);
    }
    if part_number < 1 || part_number > 10_000 {
        return Err(AppError::from_code(ProblemCode::InvalidInput));
    }
    Ok(())
}

/// The number that a text writes: digits, which a plus sign may precede, up to the largest that
/// 64 bits hold.
pub open spec fn length_of(s: Seq<char>) -> Option<nat> {
    let digits = if s.len() > 0 && s[0] == '+' {
        s.drop_first()
    } else {
        s
    };
    if digits.len() > 0 && number::all_digits(digits) && number::digits_value(digits) <= u64::MAX {
        Some(number::digits_value(digits))
    } else {
        None
    }
}

/// The number that a text writes.
pub fn read_length(s: &str) -> (r: Option<u64>)
    ensures
        match r {
            Some(n) => length_of(s@) == Some(n as nat),
            None => length_of(s@) is None,
        },
{
    let chars = text::chars_of(s);
    let n: usize = chars.len();
    let plus: bool = n > 0 && chars[0] == '+';
    let first: usize = if plus {
        1
    } else {
        0
    };
    let ghost digits = s@.subrange(first as int, n as int);
    assert(digits == if s@.len() > 0 && s@[0] == '+' {
        s@.drop_first()
    } else {
        s@
    });
    if first == n {
        return None;
    }
    let mut x: u128 = 0;
    let mut i: usize = first;
    while i < n
        invariant
            first <= i <= n == chars@.len(),
            first <= 1,
            chars@ == s@,
            digits == s@.subrange(first as int, n as int),
            digits == if s@.len() > 0 && s@[0] == '+' {
                s@.drop_first()
            } else {
                s@
            },
            x < 1_000_000_000_000_000_000_000,
            x == number::digits_value(digits.subrange(0, i - first)) || (x
                >= 100_000_000_000_000_000_000 && number::digits_value(
                digits.subrange(0, i - first),
            ) >= 100_000_000_000_000_000_000),
            forall|j: int| 0 <= j < i - first ==> number::is_digit(#[trigger] digits[j]),
        decreases n - i,
    {
        let c: char = chars[i];
        if c < '0' || c > '9' {
            assert(!number::is_digit(digits[i - first]));
            return None;
        }
        let d: u32 = c as u32 - 48;
        assert(digits.subrange(0, i - first + 1).drop_last() == digits.subrange(0, i - first));
        if x < 100_000_000_000_000_000_000 {
            x = x * 10 + d as u128;
        }
        i = i + 1;
    }
    assert(digits.subrange(0, n - first) == digits);
    assert(number::all_digits(digits));
    if x > u64::MAX as u128 {
        None
    } else {
        Some(x as u64)
    }
}

/// The length that a part declares: its `Content-Length` header, or where it has none what is
/// known of the body. A header that cannot be read is refused.
pub fn declared_body_length(content_length: Option<&[u8]>, known: Option<u64>) -> (r: Result<
    Option<u64>,
    AppError,
>)
    ensures
        match content_length {
            None => r == Ok::<_, AppError>(known),
            Some(_) => match header::readable(content_length) {
                None => error::refused(r, ProblemCode::InvalidInput),
                Some(s) => match length_of(text::trimmed(s)) {
                    None => error::refused(r, ProblemCode::InvalidInput),
                    Some(n) => r == Ok::<_, AppError>(Some(n as u64)),
                },
            },
        },
{
    if content_length.is_none() {
        return Ok(known);
    }
    match read_header(content_length) {
        None => Err(AppError::from_code(ProblemCode::InvalidInput)),
        Some(s) => match read_length(trim(s.as_str())) {
            None => Err(AppError::from_code(ProblemCode::InvalidInput)),
            Some(n) => Ok(Some(n)),
        },
    }
}

/// What the store lets a part be written with.
#[derive(Debug)]
pub struct PartGrant {
    pub storage_key: String,
    pub max_bytes: u64,
    pub upload_ref: Option<String>,
}

/// A part whose body may be read.
#[derive(Debug)]
pub struct PartPlan {
    pub grant: PartGrant,
    /// The length that was declared.
    pub declared: Option<u64>,
    /// The bytes by which the time for the body is measured.
    pub paced_by: u64,
}

/// Lets the body of a part be read: the store has to allow the part, a slot has to be free, and a
/// declared length has to be readable. Nothing of the body is read before.
pub fn plan_part(
    authorized: Result<Result<PartGrant, AttachmentDbError>, DbFailure>,
    slot: bool,
    content_length: Option<&[u8]>,
    known: Option<u64>,
) -> (r: Result<PartPlan, AppError>)
    ensures
        match authorized {
            Err(_) => error::refused(r, ProblemCode::Internal),
            Ok(Err(err)) => error::refused(r, attachment_code(err)),
            Ok(Ok(grant)) => if !slot {
                r matches Err(e) && e@ == error::no_capacity(PART_SLOT_RETRY_AFTER_SECS)
            } else {
                match (content_length, header::readable(content_length)) {
                    (None, _) => r == Ok::<_, AppError>(
                        PartPlan {
                            grant,
                            declared: known,
                            paced_by: match known {
                                Some(n) => n,
                                None => grant.max_bytes,
                            },
                        },
                    ),
                    (Some(_), None) => error::refused(r, ProblemCode::InvalidInput),
                    (Some(_), Some(s)) => match length_of(text::trimmed(s)) {
                        None => error::refused(r, ProblemCode::InvalidInput),
                        Some(n) => r == Ok::<_, AppError>(
                            PartPlan { grant, declared: Some(n as u64), paced_by: n as u64 },
                        ),
                    },
                }
            },
        },
{
    let grant = match attachment_result(authorized) {
        Err(e) => {
            return Err(e);
        },
        Ok(grant) => grant,
    };
    if !slot {
        return Err(AppError::upload_capacity_exceeded(PART_SLOT_RETRY_AFTER_SECS));
    }
    let declared = match declared_body_length(content_length, known) {
        Err(e) => {
            return Err(e);
        },
        Ok(d) => d,
    };
    let paced_by: u64 = match declared {
        Some(n) => n,
        None => grant.max_bytes,
    };
    Ok(PartPlan { grant, declared, paced_by })
}

/// What became of the body of a part.
#[derive(Clone, Copy, Debug, PartialEq, Eq, Structural)]
pub enum Staged {
    Done,
    TimedOut,
    Failed(StorageError),
}

/// Whether a part was taken by the storage.
pub fn part_staged(staged: Staged) -> (r: Result<(), AppError>)
    ensures
        match staged {
            Staged::Done => r is Ok,
            Staged::TimedOut => error::refused(r, ProblemCode::InvalidInput),
            Staged::Failed(err) => error::refused(r, storage_code(err)),
        },
{
    match staged {
        Staged::Done => Ok(()),
        Staged::TimedOut => Err(AppError::from_code(ProblemCode::InvalidInput)),
        Staged::Failed(err) => Err(map_storage_error(err)),
    }
}

/// The answer to a part: its tag, as a header and in the body.
pub fn part_committed(committed: Result<Result<String, AttachmentDbError>, DbFailure>) -> (r: Result<
    (Vec<Header>, String),
    AppError,
>)
    ensures
        match committed {
            Err(_) => error::refused(r, ProblemCode::Internal),
            Ok(Err(err)) => error::refused(r, attachment_code(err)),
            Ok(Ok(etag)) => r matches Ok(reply) && header::header_views(reply.0@) == seq![
                ("etag"@, etag@),
            ] && reply.1 == etag,
        },
{
    match attachment_result(committed) {
        Err(e) => Err(e),
        Ok(etag) => {
            let mut headers: Vec<Header> = Vec::new();
            assert(header::header_views(headers@) == Seq::<(Seq<char>, Seq<char>)>::empty());
            put(&mut headers, "etag", etag.as_str());
            Ok((headers, etag))
        },
    }
}

/// A part that is uploaded.
#[derive(Debug)]
pub struct AttachmentUploadedPartResponse {
    pub part_number: i32,
    pub etag: String,
}

/// The answer to a request to go on with an upload.
#[derive(Debug)]
pub struct ResumeAttachmentUploadResponse {
    pub attachment_id: String,
    pub part_size_bytes: i64,
    pub uploaded_parts: Vec<AttachmentUploadedPartResponse>,
    pub parts: Vec<AttachmentPartUrlResponse>,
}

/// An upload that goes on, as the store keeps it.
#[derive(Debug)]
pub struct Resumed {
    pub attachment_id: Uuid,
    pub part_size_bytes: i64,
    pub uploaded: Vec<AttachmentUploadedPartResponse>,
    pub remaining: Vec<i32>,
}

/// The answer to a request to go on with an upload.
pub fn upload_resumed(
    workspace_id: Uuid,
    resumed: Result<Result<Resumed, AttachmentDbError>, DbFailure>,
) -> (r: Result<ResumeAttachmentUploadResponse, AppError>)
    ensures
        match resumed {
            Err(_) => error::refused(r, ProblemCode::Internal),
            Ok(Err(err)) => error::refused(r, attachment_code(err)),
            Ok(Ok(u)) => r matches Ok(out) && {
                &&& out.attachment_id@ == ids::uuid_text(u.attachment_id.0)
                &&& out.part_size_bytes == u.part_size_bytes
                &&& out.uploaded_parts == u.uploaded
                &&& out.parts@.len() == u.remaining@.len()
                &&& forall|i: int|
                    0 <= i < out.parts@.len() ==> is_part(
                        #[trigger] out.parts@[i],
                        workspace_id,
                        u.attachment_id,
                        u.remaining@[i] as int,
                    )
            },
        },
{
    match attachment_result(resumed) {
        Err(e) => Err(e),
        Ok(u) => Ok(
            ResumeAttachmentUploadResponse {
                attachment_id: u.attachment_id.text(),
                part_size_bytes: u.part_size_bytes,
                uploaded_parts: u.uploaded,
                parts: remaining_parts(workspace_id, u.attachment_id, u.remaining.as_slice()),
            },
        ),
    }
}

/// A request to complete an upload as far as it can be judged before its caller is known.
pub fn complete_entry(
    origin: Option<&[u8]>,
    public_origin: &str,
    parts: &[AttachmentCompletePartBody],
) -> (r: Result<(), AppError>)
    ensures
        if !guard::origin_allowed(origin, public_origin@) {
            error::refused(r, ProblemCode::OriginMismatch)
        } else if 1 <= parts@.len() <= MAX_PARTS && forall|i: int|
            0 <= i < parts@.len() ==> part_fits(#[trigger] parts@[i]) {
            r is Ok
        } else {
            error::refused(r, ProblemCode::InvalidInput)
        },
{
    if let Err(e) = check_origin(origin, public_origin) {
        return Err(e);
    }
    validate_complete_parts(parts)
}

/// The answer about a file that the store found.
pub fn attachment_reply(found: Result<Result<AttachmentRow, AttachmentDbError>, DbFailure>) -> (r:
    Result<AttachmentOutput, AppError>)
    ensures
        match found {
            Err(_) => error::refused(r, ProblemCode::Internal),
            Ok(Err(err)) => error::refused(r, attachment_code(err)),
            Ok(Ok(att)) => r matches Ok(out) && answers_file(att, out),
        },
{
    match attachment_result(found) {
        Err(e) => Err(e),
        Ok(att) => Ok(attachment_output(&att)),
    }
}

/// A file that may be edited in place, as the store keeps it.
#[derive(Debug)]
pub struct EditContext {
    pub source_attachment_id: Uuid,
    pub name: String,
    pub mime: String,
    pub editable: bool,
}

/// A file that may be edited in place, as it is answered.
#[derive(Debug)]
pub struct AttachmentEditContextOutput {
    pub source_attachment_id: String,
    pub name: String,
    pub mime: String,
    pub editable: bool,
}

/// The answer about the editing of a file that the store found.
pub fn edit_context_reply(
    found: Result<Result<EditContext, AttachmentDbError>, DbFailure>,
) -> (r: Result<AttachmentEditContextOutput, AppError>)
    ensures
        match found {
            Err(_) => error::refused(r, ProblemCode::Internal),
            Ok(Err(err)) => error::refused(r, attachment_code(err)),
            Ok(Ok(ctx)) => r matches Ok(out) && {
                &&& out.source_attachment_id@ == ids::uuid_text(ctx.source_attachment_id.0)
                &&& out.name == ctx.name
                &&& out.mime == ctx.mime
                &&& out.editable == ctx.editable
            },
        },
{
    match attachment_result(found) {
        Err(e) => Err(e),
        Ok(ctx) => Ok(
            AttachmentEditContextOutput {
                source_attachment_id: ctx.source_attachment_id.text(),
                name: ctx.name,
                mime: ctx.mime,
                editable: ctx.editable,
            },
        ),
    }
}

/// A media type or a name of an office document.
pub open spec fn office(name: Seq<char>, mime: Seq<char>) -> bool {
    let m = header::ascii_lower(mime);
    let n = header::ascii_lower(name);
    ||| text::occurs(m, "wordprocessingml.document"@)
    ||| text::occurs(m, "presentationml.presentation"@)
    ||| text::occurs(m, "spreadsheetml.sheet"@)
    ||| m == "application/vnd.oasis.opendocument.text"@
    ||| text::ends(n, ".docx"@)
    ||| text::ends(n, ".pptx"@)
    ||| text::ends(n, ".xlsx"@)
    ||| text::ends(n, ".odt"@)
}

pub fn is_office_attachment(name: &str, mime: &str) -> (r: bool)
    ensures
        r == office(name@, mime@),
{
    let m = to_ascii_lower(mime);
    if contains(m.as_str(), "wordprocessingml.document") || contains(
        m.as_str(),
        "presentationml.presentation",
    ) || contains(m.as_str(), "spreadsheetml.sheet") || same(
        m.as_str(),
        "application/vnd.oasis.opendocument.text",
    ) {
        return true;
    }
    let n = to_ascii_lower(name);
    ends_with(n.as_str(), ".docx") || ends_with(n.as_str(), ".pptx") || ends_with(
        n.as_str(),
        ".xlsx",
    ) || ends_with(n.as_str(), ".odt")
}

/// Whether the text of a file is shown by the server: never in the mode `client`, else that of
/// office documents, and in the mode `server` also that of Hangul documents (`hwp`).
pub fn preview_html_allowed(name: &str, mime: &str, mode: &str, hwp: bool) -> (r: bool)
    ensures
        r == (mode@ != "client"@ && (office(name@, mime@) || (mode@ == "server"@ && hwp))),
{
    if same(mode, "client") {
        false
    } else if is_office_attachment(name, mime) {
        true
    } else if same(mode, "server") {
        hwp
    } else {
        false
    }
}

/// Charges a preview of a text to its user.
pub fn preview_html_limit(limiter: &mut RateLimiter, auth: &RequestAuth, now: u64) -> (r: Result<
    (),
    AppError,
>)
    requires
        old(limiter).wf(),
    ensures
        final(limiter).wf(),
        rate_limit::charged_once(
            old(limiter)@,
            final(limiter)@,
            "attachment_preview_html:"@ + ids::uuid_text(auth.user_id.0),
            PREVIEW_HTML_PER_MINUTE,
            PREVIEW_HTML_WINDOW,
            now,
            error::told(r),
        ),
{
    let user = auth.user_id.text();
    let key = join2("attachment_preview_html:", user.as_str());
    charge(limiter, key.as_str(), PREVIEW_HTML_PER_MINUTE, PREVIEW_HTML_WINDOW, now)
}

/// Whether the text of a file that the store opened may be shown in this mode.
pub fn preview_html_admitted(
    att: Result<Result<AttachmentRow, AttachmentDbError>, DbFailure>,
    mode: Result<String, DbFailure>,
    hwp: bool,
) -> (r: Result<(), AppError>)
    ensures
        match (att, mode) {
            (Err(_), _) => error::refused(r, ProblemCode::Internal),
            (Ok(Err(err)), _) => error::refused(r, attachment_code(err)),
            (Ok(Ok(_)), Err(_)) => error::refused(r, ProblemCode::Internal),
            (Ok(Ok(a)), Ok(m)) => if m@ != "client"@ && (office(a.name@, a.mime@) || (m@
                == "server"@ && hwp)) {
                r is Ok
            } else {
                error::refused(r, ProblemCode::NotFound)
            },
        },
{
    let att = match attachment_result(att) {
        Err(e) => {
            return Err(e);
        },
        Ok(att) => att,
    };
    let mode = match mode {
        Err(_) => {
            return Err(AppError::internal());
        },
        Ok(mode) => mode,
    };
    if preview_html_allowed(att.name.as_str(), att.mime.as_str(), mode.as_str(), hwp) {
        Ok(())
    } else {
        Err(AppError::from_code(ProblemCode::NotFound))
    }
}

/// The text of a file as one block of HTML; a text that is not there yet is no preview.
pub fn preview_html(extracted: Result<Option<String>, DbFailure>) -> (r: Result<String, AppError>)
    ensures
        match extracted {
            Err(_) => error::refused(r, ProblemCode::Internal),
            Ok(found) => match found {
                Some(t) if t@.len() > 0 => r matches Ok(html) && html@ == "<pre>"@
                    + text::html_text(
                    text::utf16_start(t@, EXTRACT_PREVIEW_MAX_CHARS as int),
                ) + "</pre>"@,
                _ => r matches Err(e) && e@ == error::problem_with(
                    413,
                    ProblemCode::PreviewNotAvailable,
                ),
            },
        },
{
    match extracted {
        Err(_) => Err(AppError::internal()),
        Ok(None) => Err(AppError::problem(413, ProblemCode::PreviewNotAvailable)),
        Ok(Some(t)) => {
            if t.as_str().unicode_len() == 0 {
                return Err(AppError::problem(413, ProblemCode::PreviewNotAvailable));
            }
            let escaped = escape_html(utf16_prefix(t.as_str(), EXTRACT_PREVIEW_MAX_CHARS));
            Ok(join3("<pre>", escaped.as_str(), "</pre>"))
        },
    }
}

/// The bytes that are announced are the bytes that are sent, for a whole file that is not empty
/// as for a range.
pub proof fn law_announced_bytes_are_sent(
    disposition: Seq<char>,
    size: i64,
    range: ParsedRange,
)
    requires
        range_within(range, storage_size(size)),
        size > 0,
        range != ParsedRange::Invalid,
    ensures
        download_reply(disposition, size, range, false) matches FileReplyView::File {
            status: _,
            headers,
            bytes: Some((start, end)),
        } && start <= end < size && headers.last() == (
            "content-length"@,
            text::decimal((end - start + 1) as nat),
        ),
{
}

/// A request for the head of a file is answered as one for the file, but for the bytes.
pub proof fn law_head_answers_alike(disposition: Seq<char>, size: i64, range: ParsedRange)
    requires
        range_within(range, storage_size(size)),
        range != ParsedRange::Invalid,
    ensures
        ({
            let head = download_reply(disposition, size, range, true);
            let get = download_reply(disposition, size, range, false);
            &&& head->File_status == get->File_status
            &&& head->File_headers == get->File_headers
            &&& head->File_bytes is None
            &&& get->File_bytes is Some
        }),
{
}

/// The bytes that are asked for are the bytes that are sent and named in the answer: a range as the
/// range that it is, a whole file from its first byte to its last.
pub proof fn law_asked_bytes_are_sent(disposition: Seq<char>, size: i64, range: ParsedRange)
    requires
        range_within(range, storage_size(size)),
        size > 0,
    ensures
        match range {
            ParsedRange::Bytes { start, end } => download_reply(disposition, size, range, false)
                matches FileReplyView::File { status, headers, bytes } && status == 206 && bytes
                == Some((start, end)) && headers.contains(
                ("content-range"@, range_sent(start, end, size as int)),
            ),
            ParsedRange::Full => download_reply(disposition, size, range, false)
                matches FileReplyView::File { status, headers, bytes } && status == 200 && bytes
                == Some((0u64, (size - 1) as u64)),
            ParsedRange::Invalid => download_reply(disposition, size, range, false)
                matches FileReplyView::Unsatisfiable { problem, headers } && problem
                == error::problem(ProblemCode::RangeNotSatisfiable) && headers.contains(
                ("content-range"@, range_refused(size as int)),
            ),
        },
{
    if let FileReplyView::File { status, headers, bytes } = download_reply(
        disposition,
        size,
        range,
        false,
    ) {
        if let ParsedRange::Bytes { start, end } = range {
            assert(headers[headers.len() - 2] == (
                "content-range"@,
                range_sent(start, end, size as int),
            ));
        }
    }
    if let FileReplyView::Unsatisfiable { problem, headers } = download_reply(
        disposition,
        size,
        range,
        false,
    ) {
        assert(headers[0] == ("content-range"@, range_refused(size as int)));
    }
}

/// A client that names the tag of a preview is told that nothing has changed, and no other is.
pub proof fn law_known_preview_is_not_sent(
    tag: Seq<char>,
    size: u64,
    if_none_match: Option<&[u8]>,
    range: ParsedRange,
    head_only: bool,
    ranges: bool,
)
    ensures
        preview_reply(tag, size, if_none_match, range, head_only, ranges) is NotModified <==> (
        header::readable(if_none_match) matches Some(h) && header::names_tag(h, tag)),
{
}

/// The bytes of a preview that are asked for are the bytes that are sent, named and counted; where
/// ranges are not served, a range counts for nothing.
pub proof fn law_asked_bytes_of_a_preview_are_sent(
    tag: Seq<char>,
    size: u64,
    range: ParsedRange,
    head_only: bool,
)
    requires
        range_within(range, size),
        size > 0,
    ensures
        match range {
            ParsedRange::Bytes { start, end } => preview_reply(
                tag,
                size,
                None,
                range,
                head_only,
                true,
            ) matches FileReplyView::File { status, headers, bytes } && status == 206
                && headers.contains(("content-range"@, range_sent(start, end, size as int)))
                && headers.contains(("content-length"@, text::decimal((end - start + 1) as nat)))
                && bytes == if head_only {
                None
            } else {
                Some((start, end))
            },
            ParsedRange::Full => preview_reply(tag, size, None, range, head_only, true)
                matches FileReplyView::File { status, headers, bytes } && status == 200
                && headers.contains(("content-length"@, text::decimal(size as nat))) && bytes
                == if head_only {
                None
            } else {
                Some((0u64, (size - 1) as u64))
            },
            ParsedRange::Invalid => preview_reply(tag, size, None, range, head_only, true)
                matches FileReplyView::Unsatisfiable { problem, headers } && problem
                == error::problem(ProblemCode::RangeNotSatisfiable) && headers.contains(
                ("content-range"@, range_refused(size as int)),
            ),
        },
        preview_reply(tag, size, None, range, head_only, false) matches FileReplyView::File {
            status,
            headers,
            bytes,
        } && status == 200 && headers.contains(("content-length"@, text::decimal(size as nat)))
            && bytes == if head_only {
            None
        } else {
            Some((0u64, (size - 1) as u64))
        },
{
    if let FileReplyView::File { status, headers, bytes } = preview_reply(
        tag,
        size,
        None,
        range,
        head_only,
        true,
    ) {
        let n = headers.len() as int;
        if let ParsedRange::Bytes { start, end } = range {
            assert(headers[n - 2] == ("content-range"@, range_sent(start, end, size as int)));
            assert(headers[n - 1] == (
                "content-length"@,
                text::decimal((end - start + 1) as nat),
            ));
        } else {
            assert(headers[n - 1] == ("content-length"@, text::decimal(size as nat)));
        }
    }
    if let FileReplyView::Unsatisfiable { problem, headers } = preview_reply(
        tag,
        size,
        None,
        range,
        head_only,
        true,
    ) {
        assert(headers[0] == ("content-range"@, range_refused(size as int)));
    }
    if let FileReplyView::File { status, headers, bytes } = preview_reply(
        tag,
        size,
        None,
        range,
        head_only,
        false,
    ) {
        assert(headers[headers.len() - 1] == ("content-length"@, text::decimal(size as nat)));
    }
}

/// No answer with bytes of a file lets a client guess what they are, run them or keep them for
/// others.
pub proof fn law_files_are_sent_inert(
    disposition: Seq<char>,
    tag: Seq<char>,
    size: i64,
    range: ParsedRange,
    head_only: bool,
    ranges: bool,
)
    ensures
        download_reply(disposition, size, range, head_only) matches FileReplyView::File {
            headers,
            ..
        } ==> headers.contains(("x-content-type-options"@, "nosniff"@)) && headers.contains(
            ("content-security-policy"@, "sandbox"@),
        ) && headers.contains(("content-type"@, "application/octet-stream"@)) && headers.contains(
            ("content-disposition"@, disposition),
        ) && headers.contains(("cache-control"@, "private, no-store"@)),
        size >= 0 ==> (preview_reply(tag, size as u64, None, range, head_only, ranges)
            matches FileReplyView::File { headers, .. } ==> headers.contains(
            ("x-content-type-options"@, "nosniff"@),
        ) && headers.contains(("content-security-policy"@, "sandbox"@)) && headers.contains(
            ("content-type"@, "image/webp"@),
        ) && headers.contains(("etag"@, tag)) && headers.contains(
            ("cache-control"@, "private, max-age=3600"@),
        )),
{
    if let FileReplyView::File { headers, .. } = download_reply(
        disposition,
        size,
        range,
        head_only,
    ) {
        assert(headers[0] == ("content-type"@, "application/octet-stream"@));
        assert(headers[1] == ("content-disposition"@, disposition));
        assert(headers[3] == ("cache-control"@, "private, no-store"@));
        assert(headers[4] == ("x-content-type-options"@, "nosniff"@));
        assert(headers[5] == ("content-security-policy"@, "sandbox"@));
    }
    if size >= 0 {
        if let FileReplyView::File { headers, .. } = preview_reply(
            tag,
            size as u64,
            None,
            range,
            head_only,
            ranges,
        ) {
            assert(headers[0] == ("x-content-type-options"@, "nosniff"@));
            assert(headers[1] == ("content-security-policy"@, "sandbox"@));
            assert(headers[2] == ("etag"@, tag));
            assert(headers[3] == ("cache-control"@, "private, max-age=3600"@));
            assert(headers[4] == ("content-type"@, "image/webp"@));
        }
    }
}

/// A length in decimal is read back, behind a plus sign too, as far as 64 bits reach.
pub proof fn law_written_length_is_read_back(n: nat)
    ensures
        length_of(text::decimal(n)) == if n <= u64::MAX {
            Some(n)
        } else {
            None
        },
        length_of(seq!['+'] + text::decimal(n)) == length_of(text::decimal(n)),
{
    number::law_decimal_is_read_back(n);
    assert(number::is_digit(text::decimal(n)[0]));
    assert((seq!['+'] + text::decimal(n)).drop_first() =~= text::decimal(n));
}

/// No two parts of an upload have the same address.
pub proof fn law_parts_have_addresses_of_their_own(
    workspace_id: Uuid,
    attachment_id: Uuid,
    m: int,
    n: int,
)
    requires
        part_path(workspace_id, attachment_id, m) == part_path(workspace_id, attachment_id, n),
    ensures
        m == n,
{
    let front = "/api/v1/workspaces/"@ + ids::uuid_text(workspace_id.0) + "/attachments/"@
        + ids::uuid_text(attachment_id.0) + "/parts/"@;
    let a = text::signed_decimal(m);
    let b = text::signed_decimal(n);
    assert((front + a).subrange(front.len() as int, (front + a).len() as int) =~= a);
    assert((front + b).subrange(front.len() as int, (front + b).len() as int) =~= b);
    crate::json::law_written_integer_is_read_back(m, m, m);
    crate::json::law_written_integer_is_read_back(n, n, n);
}

/// What a token may read of a document it needs the scope to read documents for, and what it may
/// change the one to write them; of tasks likewise.
pub proof fn law_files_belong_to_their_parents(parent: AttachmentParent, write: bool)
    ensures
        target_scope(parent, write) == ApiTokenScope::DocumentsRead || target_scope(parent, write)
            == ApiTokenScope::DocumentsWrite <==> parent is Document,
        target_scope(parent, write) == ApiTokenScope::DocumentsWrite || target_scope(parent, write)
            == ApiTokenScope::TasksWrite <==> write,
{
}

/// A file is answered with the values that the store keeps under the same names.
pub proof fn law_file_is_answered_as_kept(att: AttachmentRow, out: AttachmentOutput)
    requires
        answers_file(att, out),
    ensures
        ids::uuid_of(out.id@) == Some(att.id.0),
        out.name@ == att.name@,
        out.mime@ == att.mime@,
        out.size_bytes == att.size_bytes,
        out.image == att.image,
        out.scan_status@ == att.scan_status@,
        out.created_at == att.created_at,
        out.completed_at == att.completed_at,
        match (att.preview, out.preview) {
            (Some(p), Some(q)) => (p.width <= i32::MAX ==> q.width == p.width) && (p.height
                <= i32::MAX ==> q.height == p.height),
            (None, None) => true,
            _ => false,
        },
{
    ids::law_uuid_round_trip(att.id.0);
}

/// A part is paced by the length that its request declares, else by the one that is known, else by
/// the most that it may have; a part that is let in keeps its grant, and none is without a slot.
pub proof fn law_part_is_planned_by_its_length(
    grant: PartGrant,
    slot: bool,
    content_length: Option<&[u8]>,
    known: Option<u64>,
    r: Result<PartPlan, AppError>,
)
    requires
        call_ensures(plan_part, (Ok(Ok(grant)), slot, content_length, known), r),
    ensures
        !slot ==> r is Err,
        r matches Ok(plan) ==> {
            &&& slot
            &&& plan.grant == grant
            &&& content_length is None ==> plan.declared == known
            &&& content_length matches Some(_) ==> plan.declared is Some && (header::readable(
                content_length,
            ) matches Some(s) && length_of(text::trimmed(s)) == Some(plan.declared->0 as nat))
            &&& plan.paced_by == match plan.declared {
                Some(n) => n,
                None => grant.max_bytes,
            }
        },
        slot && content_length is None ==> r is Ok,
{
}

/// An upload that was begun names each of its parts once, from the first to the last, and one that
/// is resumed those that are left.
pub proof fn law_upload_names_its_parts(
    workspace_id: Uuid,
    id: Uuid,
    meta: UploadMeta,
    left: Resumed,
    r: Result<CreateAttachmentUploadResponse, AppError>,
    s: Result<ResumeAttachmentUploadResponse, AppError>,
)
    requires
        call_ensures(upload_created, (workspace_id, Ok(Ok((id, meta)))), r),
        call_ensures(upload_resumed, (workspace_id, Ok(Ok(left))), s),
        meta.part_count >= 0,
    ensures
        r is Ok && s is Ok,
        ids::uuid_of(r->Ok_0.attachment_id@) == Some(id.0),
        r->Ok_0.part_size_bytes == meta.part_size_bytes,
        r->Ok_0.parts@.len() == meta.part_count,
        forall|i: int|
            0 <= i < r->Ok_0.parts@.len() ==> (#[trigger] r->Ok_0.parts@[i]).part_number == i + 1
                && r->Ok_0.parts@[i].url@ == part_path(workspace_id, id, i + 1),
        ids::uuid_of(s->Ok_0.attachment_id@) == Some(left.attachment_id.0),
        s->Ok_0.part_size_bytes == left.part_size_bytes,
        s->Ok_0.uploaded_parts == left.uploaded,
        s->Ok_0.parts@.len() == left.remaining@.len(),
        forall|i: int|
            0 <= i < s->Ok_0.parts@.len() ==> (#[trigger] s->Ok_0.parts@[i]).part_number
                == left.remaining@[i] && s->Ok_0.parts@[i].url@ == part_path(
                workspace_id,
                left.attachment_id,
                left.remaining@[i] as int,
            ),
{
    ids::law_uuid_round_trip(id.0);
    ids::law_uuid_round_trip(left.attachment_id.0);
}

/// What one may not see of a file is answered as what is not there.
pub proof fn law_hidden_file_is_answered_as_missing()
    ensures
        attachment_code(AttachmentDbError::Forbidden) == attachment_code(
            AttachmentDbError::NotFound,
        ),
        attachment_code(AttachmentDbError::NotFound) == ProblemCode::NotFound,
{
}

/// What one user is told by this limit does not depend on the requests of another: `upload_limit`
/// answers `b` alike behind a request of `a` and without it.
pub proof fn law_upload_limit_is_one_for_each_user(
    first: &mut RateLimiter,
    second: &mut RateLimiter,
    alone: &mut RateLimiter,
    a: &RequestAuth,
    b: &RequestAuth,
    per_window: u32,
    now: u64,
    later: u64,
    told_a: Result<(), AppError>,
    told_b: Result<(), AppError>,
    told_alone: Result<(), AppError>,
)
    requires
        first.wf(),
        second.wf(),
        alone.wf(),
        a.user_id != b.user_id,
        old(first)@.dom().len() < rate_limit::MAX_KEYS,
        old(second)@ == final(first)@,
        old(alone)@ == old(first)@,
        call_ensures(upload_limit, (first, a, per_window, now), told_a),
        call_ensures(upload_limit, (second, b, per_window, later), told_b),
        call_ensures(upload_limit, (alone, b, per_window, later), told_alone),
    ensures
        told_b is Ok <==> told_alone is Ok,
        error::told(told_b) == error::told(told_alone),
{
    ids::law_uuid_texts_are_apart(a.user_id.0, b.user_id.0);
    rate_limit::lemma_keys_apart("upload_create:"@, ids::uuid_text(a.user_id.0), ids::uuid_text(b.user_id.0));
    rate_limit::lemma_other_keys_stay(
        old(first)@,
        final(first)@,
        "upload_create:"@ + ids::uuid_text(a.user_id.0),
        per_window,
        WINDOW,
        now,
        "upload_create:"@ + ids::uuid_text(b.user_id.0),
    );
}

/// What one user is told by this limit does not depend on the requests of another: `preview_html_limit`
/// answers `b` alike behind a request of `a` and without it.
pub proof fn law_preview_html_limit_is_one_for_each_user(
    first: &mut RateLimiter,
    second: &mut RateLimiter,
    alone: &mut RateLimiter,
    a: &RequestAuth,
    b: &RequestAuth,
    now: u64,
    later: u64,
    told_a: Result<(), AppError>,
    told_b: Result<(), AppError>,
    told_alone: Result<(), AppError>,
)
    requires
        first.wf(),
        second.wf(),
        alone.wf(),
        a.user_id != b.user_id,
        old(first)@.dom().len() < rate_limit::MAX_KEYS,
        old(second)@ == final(first)@,
        old(alone)@ == old(first)@,
        call_ensures(preview_html_limit, (first, a, now), told_a),
        call_ensures(preview_html_limit, (second, b, later), told_b),
        call_ensures(preview_html_limit, (alone, b, later), told_alone),
    ensures
        told_b is Ok <==> told_alone is Ok,
        error::told(told_b) == error::told(told_alone),
{
    ids::law_uuid_texts_are_apart(a.user_id.0, b.user_id.0);
    rate_limit::lemma_keys_apart("attachment_preview_html:"@, ids::uuid_text(a.user_id.0), ids::uuid_text(b.user_id.0));
    rate_limit::lemma_other_keys_stay(
        old(first)@,
        final(first)@,
        "attachment_preview_html:"@ + ids::uuid_text(a.user_id.0),
        PREVIEW_HTML_PER_MINUTE,
        PREVIEW_HTML_WINDOW,
        now,
        "attachment_preview_html:"@ + ids::uuid_text(b.user_id.0),
    );
}

/// Refusals of the store are told apart, but for what one may not see, which is told as missing,
/// and what is no input for an editor, which is told as no input.
pub proof fn law_refusals_of_files_are_told_apart(a: AttachmentDbError, b: AttachmentDbError)
    requires
        a != b,
        attachment_code(a) == attachment_code(b),
    ensures
        ((a is NotFound || a is Forbidden) && attachment_code(a) == ProblemCode::NotFound) || ((a
            is InvalidInput || a is NotHwp) && attachment_code(a) == ProblemCode::InvalidInput),
        a is Infected ==> attachment_code(a) == ProblemCode::AttachmentFailedVirusScan,
{
}

} // verus!
