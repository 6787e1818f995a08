//! Imports of files into a workspace.

use vstd::prelude::*;
use vstd::string::*;
use crate::authz;
use crate::authz::{Access, RequestAuth, Resolved, require_request_auth};
use crate::encoding;
use crate::encoding::base64_decode;
use crate::error;
use crate::error::{AppError, DbFailure, ProblemCode};
use crate::guard;
use crate::guard::{check_origin, reject_bearer};
use crate::header::read_media_type;
use crate::ids;
use crate::ids::{Uuid, texts_of};
use crate::rate_limit;
use crate::rate_limit::{RateLimiter, charge};
use crate::text::{join2, same};

verus! {

/// The most bytes of a file that is sent in a request.
pub const IMPORT_HTTP_MAX_BYTES: usize = 67_108_864;

/// The most bytes of a body: the largest file in base64, and room for the other members.
pub const IMPORT_BODY_MAX_BYTES: usize = 89_544_020;

/// Imports that one user may start within fifteen minutes.
pub const IMPORT_LIMIT: u32 = 5;

pub const IMPORT_WINDOW: u64 = 900_000_000_000;

/// How an import is carried out.
#[derive(Clone, Copy, Debug, PartialEq, Eq, Structural)]
pub enum ImportKind {
    /// While the request waits.
    MarkdownZip,
    /// By the runner, from an office file.
    OfficeFile,
    /// By the runner, from something else.
    Other,
}

/// Where an import comes from.
#[derive(Debug)]
pub struct ImportSource {
    pub kind: ImportKind,
    /// The name that it has in requests and answers.
    pub name: String,
}

/// The body of a request to import.
#[derive(Debug)]
pub struct StartImportBody {
    pub workspace_id: Uuid,
    pub source: String,
    pub zip_base64: Option<String>,
    pub file_name: Option<String>,
    pub project_id: Option<Uuid>,
}

/// What reading a body came to.
#[derive(Debug)]
pub enum BodyRead {
    /// More than `IMPORT_BODY_MAX_BYTES`, or it broke off.
    TooLarge,
    /// Not JSON of the shape of `StartImportBody`.
    Malformed,
    Read(StartImportBody),
}

/// Why the store knows no import job.
#[derive(Clone, Copy, Debug, PartialEq, Eq, Structural)]
pub enum ImportDbError {
    NotFound,
    Forbidden,
}

/// Why an import ended early.
#[derive(Clone, Copy, Debug, PartialEq, Eq, Structural)]
pub enum SyncImportError {
    Failed,
    NotFound,
    Db,
}

/// What the instance can import with.
#[derive(Clone, Copy, Debug, PartialEq, Eq, Structural)]
pub struct ImportTools {
    /// An engine that turns documents into their stored form.
    pub seed: bool,
    /// A helper that reads Markdown.
    pub markdown: bool,
    /// A runner of jobs in the background.
    pub runner: bool,
}

/// An import job as it is answered.
#[derive(Debug)]
pub struct ImportJobResponse {
    pub id: String,
    pub workspace_id: String,
    pub source: String,
    pub status: String,
    pub created_document_ids: Vec<String>,
}

/// The contents of an `ImportJobResponse`.
#[verifier::ext_equal]
pub struct ImportJobView {
    pub id: Seq<char>,
    pub workspace_id: Seq<char>,
    pub source: Seq<char>,
    pub status: Seq<char>,
    pub created_document_ids: Seq<Seq<char>>,
}

impl View for ImportJobResponse {
    type V = ImportJobView;

    open spec fn view(&self) -> ImportJobView {
        ImportJobView {
            id: self.id@,
            workspace_id: self.workspace_id@,
            source: self.source@,
            status: self.status@,
            created_document_ids: crate::text::views(self.created_document_ids@),
        }
    }
}

/// The answer about a job.
pub open spec fn job_answer(
    id: Uuid,
    workspace_id: Uuid,
    source: Seq<char>,
    status: Seq<char>,
    created: Seq<Uuid>,
) -> ImportJobView {
    ImportJobView {
        id: ids::uuid_text(id.0),
        workspace_id: ids::uuid_text(workspace_id.0),
        source,
        status,
        created_document_ids: ids::uuid_texts(created),
    }
}

/// The answer about a job.
pub fn job_response(
    id: Uuid,
    workspace_id: Uuid,
    source: &str,
    status: &str,
    created: &[Uuid],
) -> (r: ImportJobResponse)
    ensures
        r@ == job_answer(id, workspace_id, source@, status@, created@),
{
    ImportJobResponse {
        id: id.text(),
        workspace_id: workspace_id.text(),
        source: source.to_owned(),
        status: status.to_owned(),
        created_document_ids: texts_of(created),
    }
}

/// The problem of a request that the routes of imports do not let in: a bearer token, then a
/// foreign origin.
pub open spec fn import_entry_problem(
    authorization: Option<&[u8]>,
    origin: Option<&[u8]>,
    public_origin: Seq<char>,
) -> Option<ProblemCode> {
    if guard::carries_bearer(authorization) {
        Some(ProblemCode::NotFound)
    } else if !guard::origin_allowed(origin, public_origin) {
        Some(ProblemCode::OriginMismatch)
    } else {
        None
    }
}

/// A request that was let in and whose session is still to be resolved.
#[derive(Debug)]
pub struct ImportRequest {
    admitted: bool,
}

/// A request of a known user, whose body is still to be read.
#[derive(Debug)]
pub struct ImportSession {
    auth: RequestAuth,
}

impl ImportRequest {
    /// The request passed the checks before authentication.
    pub closed spec fn admitted(&self) -> bool {
        self.admitted
    }

    /// Lets a request in, as far as its headers tell.
    pub fn enter(
        authorization: Option<&[u8]>,
        origin: Option<&[u8]>,
        public_origin: &str,
    ) -> (r: Result<ImportRequest, AppError>)
        ensures
            match r {
                Ok(request) => request.admitted() && import_entry_problem(
                    authorization,
                    origin,
                    public_origin@,
                ) is None,
                Err(e) => import_entry_problem(authorization, origin, public_origin@) matches Some(
                    code,
                ) && e@ == error::problem(code),
            },
    {
        if let Err(e) = reject_bearer(authorization) {
            return Err(e);
        }
        if let Err(e) = check_origin(origin, public_origin) {
            return Err(e);
        }
        Ok(ImportRequest { admitted: true })
    }

    /// Takes what the store knows of the session.
    pub fn authenticate(self, resolved: Resolved) -> (r: Result<ImportSession, AppError>)
        ensures
            match r {
                Ok(session) => authz::auth_problem(resolved, Access::Session, None) is None
                    && authz::authenticated(resolved, session.auth()),
                Err(e) => authz::auth_problem(resolved, Access::Session, None) matches Some(code)
                    && e@ == error::problem(code),
            },
    {
        match require_request_auth(resolved, Access::Session, None) {
            Ok(auth) => Ok(ImportSession { auth }),
            Err(e) => Err(e),
        }
    }
}

/// The media type of a request to import.
pub open spec fn json_media(content_type: Option<&[u8]>) -> bool {
    crate::header::media_type(content_type) == Some("application/json"@)
}

/// The number of characters of a text lies between one and 255.
pub open spec fn file_name_fits(name: Seq<char>) -> bool {
    1 <= name.len() <= 255
}

/// The problem of a body that was read, if it has one.
pub open spec fn body_problem(body: BodyRead) -> Option<error::ErrorView> {
    match body {
        BodyRead::TooLarge => Some(error::problem_with(413, ProblemCode::InvalidInput)),
        BodyRead::Malformed => Some(error::problem(ProblemCode::InvalidInput)),
        BodyRead::Read(b) => if b.file_name matches Some(name) && !file_name_fits(name@) {
            Some(error::problem_at(ProblemCode::InvalidInput, "/fileName"@))
        } else if b.zip_base64 matches Some(zip) && zip@.len() == 0 {
            Some(error::problem_at(ProblemCode::InvalidInput, "/zipBase64"@))
        } else {
            None
        },
    }
}

impl ImportSession {
    pub closed spec fn auth(&self) -> RequestAuth {
        self.auth
    }

    /// Whose request it is.
    pub fn request_auth(&self) -> (r: &RequestAuth)
        ensures
            *r == self.auth(),
    {
        &self.auth
    }

    /// Whether the body may be read at all: only JSON is.
    pub fn check_content_type(&self, content_type: Option<&[u8]>) -> (r: Result<(), AppError>)
        ensures
            r is Ok <==> json_media(content_type),
            r matches Err(e) ==> e@ == error::problem(ProblemCode::UnsupportedMediaType),
    {
        let is_json: bool = match read_media_type(content_type) {
            Some(t) => same(t.as_str(), "application/json"),
            None => false,
        };
        if is_json {
            Ok(())
        } else {
            Err(AppError::from_code(ProblemCode::UnsupportedMediaType))
        }
    }

    /// Takes what reading the body came to.
    pub fn read_import_body(&self, body: BodyRead) -> (r: Result<StartImportBody, AppError>)
        ensures
            match r {
                Ok(b) => body == BodyRead::Read(b) && body_problem(body) is None,
                Err(e) => body_problem(body) == Some(e@),
            },
    {
        let b = match body {
            BodyRead::TooLarge => {
                return Err(AppError::problem(413, ProblemCode::InvalidInput));
            },
            BodyRead::Malformed => {
                return Err(AppError::from_code(ProblemCode::InvalidInput));
            },
            BodyRead::Read(b) => b,
        };
        if let Some(name) = &b.file_name {
            let len: usize = name.as_str().unicode_len();
            if len < 1 || len > 255 {
                return Err(AppError::with_source(ProblemCode::InvalidInput, "/fileName"));
            }
        }
        if let Some(zip) = &b.zip_base64 {
            if zip.as_str().unicode_len() == 0 {
                return Err(AppError::with_source(ProblemCode::InvalidInput, "/zipBase64"));
            }
        }
        Ok(b)
    }

    /// The key under which the imports of the user are counted.
    pub open spec fn limit_key(&self) -> Seq<char> {
        "import-user:"@ + ids::uuid_text(self.auth().user_id.0)
    }

    /// Counts one more import of the user.
    pub fn charge_import(&self, limiter: &mut RateLimiter, now: u64) -> (r: Result<(), AppError>)
        requires
            old(limiter).wf(),
        ensures
            final(limiter).wf(),
            rate_limit::charged_once(
                old(limiter)@,
                final(limiter)@,
                self.limit_key(),
                IMPORT_LIMIT,
                IMPORT_WINDOW,
                now,
                error::told(r),
            ),
    {
        let id = self.auth.user_id.text();
        let key = join2("import-user:", id.as_str());
        charge(limiter, key.as_str(), IMPORT_LIMIT, IMPORT_WINDOW, now)
    }
}

/// What is done for an import.
#[derive(Debug)]
pub enum ImportPlan {
    /// A job is created and run at once.
    Now { source: String, file: Vec<u8> },
    /// A job is created with the file, and the runner is woken.
    Later { source: String, file: Vec<u8>, file_name: Option<String>, project_id: Option<Uuid> },
}

/// What an import is asked to read: the file, or the place where it is at fault.
pub open spec fn import_file(zip_base64: Option<String>, file: Seq<u8>) -> bool {
    match zip_base64 {
        Some(text) => encoding::writes_bytes(text@, file),
        None => file.len() == 0,
    }
}

/// The file in a body can be read.
pub open spec fn import_file_readable(zip_base64: Option<String>) -> bool {
    zip_base64 matches Some(text) ==> exists|file: Seq<u8>| #[trigger]
        encoding::writes_bytes(text@, file)
}

/// The problem of an import with this file, if it has one: an unknown source, an unreadable or
/// too large file, missing tools, and for the runner an empty file or a format that it does not
/// read.
pub open spec fn import_problem(
    body: StartImportBody,
    source: Option<ImportSource>,
    file: Option<Seq<u8>>,
    tools: ImportTools,
    office_supported: bool,
) -> Option<error::ErrorView> {
    let failed = Some(error::problem(ProblemCode::ImportFailed));
    match (source, file) {
        (None, _) => Some(error::problem_at(ProblemCode::InvalidInput, "/source"@)),
        (_, None) => Some(error::problem_at(ProblemCode::InvalidInput, "/zipBase64"@)),
        (Some(s), Some(f)) => if f.len() > IMPORT_HTTP_MAX_BYTES {
            Some(error::problem_with(413, ProblemCode::InvalidInput))
        } else if s.kind == ImportKind::MarkdownZip {
            if tools.seed && tools.markdown {
                None
            } else {
                failed
            }
        } else if !tools.runner || f.len() == 0 {
            failed
        } else if s.kind == ImportKind::OfficeFile && !office_supported {
            failed
        } else {
            None
        },
    }
}

/// The plan of an import without a problem.
pub open spec fn import_plan(
    body: StartImportBody,
    source: ImportSource,
    file: Seq<u8>,
    plan: ImportPlan,
) -> bool {
    match plan {
        ImportPlan::Now { source: name, file: bytes } => {
            &&& source.kind == ImportKind::MarkdownZip
            &&& name == source.name
            &&& bytes@ == file
        },
        ImportPlan::Later { source: name, file: bytes, file_name, project_id } => {
            &&& source.kind != ImportKind::MarkdownZip
            &&& name == source.name
            &&& bytes@ == file
            &&& file_name == body.file_name
            &&& project_id == body.project_id
        },
    }
}

/// Decides what an import does. `source` is what the store makes of the source that the body
/// names; `office_supported`, whether the runner reads files with the name in the body.
pub fn plan_import(
    body: StartImportBody,
    source: Option<ImportSource>,
    tools: ImportTools,
    office_supported: bool,
) -> (r: Result<ImportPlan, AppError>)
    ensures
        match r {
            Ok(plan) => source is Some && exists|file: Seq<u8>| #[trigger]
                import_file(body.zip_base64, file) && import_problem(
                    body,
                    source,
                    Some(file),
                    tools,
                    office_supported,
                ) is None && import_plan(body, source->0, file, plan),
            Err(e) => if import_file_readable(body.zip_base64) {
                exists|file: Seq<u8>| #[trigger]
                    import_file(body.zip_base64, file) && import_problem(
                        body,
                        source,
                        Some(file),
                        tools,
                        office_supported,
                    ) == Some(e@)
            } else {
                import_problem(body, source, None, tools, office_supported) == Some(e@)
            },
        },
{
    let ghost readable = import_file_readable(body.zip_base64);
    let decoded: Option<Vec<u8>> = match &body.zip_base64 {
        Some(text) => base64_decode(text.as_str()),
        None => Some(Vec::new()),
    };
    proof {
        if decoded is Some {
            let f = decoded->0@;
            assert(import_file(body.zip_base64, f));
            assert(body.zip_base64 matches Some(text) ==> encoding::writes_bytes(text@, f));
            assert(readable);
        } else {
            assert(!readable);
        }
    }
    let source = match source {
        None => {
            return Err(AppError::with_source(ProblemCode::InvalidInput, "/source"));
        },
        Some(source) => source,
    };
    let file: Vec<u8> = match decoded {
        None => {
            return Err(AppError::with_source(ProblemCode::InvalidInput, "/zipBase64"));
        },
        Some(file) => file,
    };
    let ghost f = file@;
    assert(import_file(body.zip_base64, f));
    if file.len() > IMPORT_HTTP_MAX_BYTES {
        return Err(AppError::problem(413, ProblemCode::InvalidInput));
    }
    if source.kind == ImportKind::MarkdownZip {
        if !tools.seed || !tools.markdown {
            return Err(AppError::from_code(ProblemCode::ImportFailed));
        }
        return Ok(ImportPlan::Now { source: source.name, file });
    }
    if !tools.runner {
        return Err(AppError::from_code(ProblemCode::ImportFailed));
    }
    if file.len() == 0 {
        return Err(AppError::from_code(ProblemCode::ImportFailed));
    }
    if source.kind == ImportKind::OfficeFile && !office_supported {
        return Err(AppError::from_code(ProblemCode::ImportFailed));
    }
    Ok(
        ImportPlan::Later {
            source: source.name,
            file,
            file_name: body.file_name,
            project_id: body.project_id,
        },
    )
}

/// The problem that a job the store refuses ends in.
pub fn map_import_error(err: ImportDbError) -> (r: AppError)
    ensures
        r@ == error::problem(ProblemCode::NotFound),
{
    AppError::from_code(ProblemCode::NotFound)
}

/// The problem code of a refusal of the store.
pub open spec fn stored_problem<T>(r: Result<Result<T, ImportDbError>, DbFailure>) -> Option<
    ProblemCode,
> {
    match r {
        Err(_) => Some(ProblemCode::Internal),
        Ok(Err(_)) => Some(ProblemCode::NotFound),
        Ok(Ok(_)) => None,
    }
}

/// The job that the store created.
pub fn job_created(created: Result<Result<Uuid, ImportDbError>, DbFailure>) -> (r: Result<
    Uuid,
    AppError,
>)
    ensures
        match r {
            Ok(id) => created == Ok::<_, DbFailure>(Ok::<_, ImportDbError>(id)),
            Err(e) => stored_problem(created) matches Some(code) && e@ == error::problem(code),
        },
{
    match created {
        Err(_) => Err(AppError::internal()),
        Ok(Err(e)) => Err(map_import_error(e)),
        Ok(Ok(id)) => Ok(id),
    }
}

/// The answer to an import that was carried out while the request waited.
pub fn import_completed(
    job: Uuid,
    workspace_id: Uuid,
    source: &str,
    outcome: Result<Vec<Uuid>, SyncImportError>,
) -> (r: Result<ImportJobResponse, AppError>)
    ensures
        match outcome {
            Ok(created) => r matches Ok(job_reply) && job_reply@ == job_answer(
                job,
                workspace_id,
                source@,
                "completed"@,
                created@,
            ),
            Err(SyncImportError::Failed) => r matches Err(e) && e@ == error::problem(
                ProblemCode::ImportFailed,
            ),
            Err(SyncImportError::NotFound) => r matches Err(e) && e@ == error::problem(
                ProblemCode::NotFound,
            ),
            Err(SyncImportError::Db) => r matches Err(e) && e@ == error::problem(
                ProblemCode::Internal,
            ),
        },
{
    match outcome {
        Ok(created) => Ok(
            job_response(job, workspace_id, source, "completed", created.as_slice()),
        ),
        Err(SyncImportError::Failed) => Err(AppError::from_code(ProblemCode::ImportFailed)),
        Err(SyncImportError::NotFound) => Err(AppError::from_code(ProblemCode::NotFound)),
        Err(SyncImportError::Db) => Err(AppError::internal()),
    }
}

/// The answer to an import that the runner carries out: nothing is created yet.
pub fn import_queued(job: Uuid, workspace_id: Uuid, source: &str) -> (r: ImportJobResponse)
    ensures
        r@ == job_answer(job, workspace_id, source@, "running"@, Seq::empty()),
{
    let none: Vec<Uuid> = Vec::new();
    job_response(job, workspace_id, source, "running", none.as_slice())
}

/// A job as the store keeps it.
#[derive(Debug)]
pub struct ImportJob {
    pub id: Uuid,
    pub workspace_id: Uuid,
    pub source: String,
    pub status: String,
    pub document_ids: Vec<Uuid>,
}

/// The answer to a question about a job.
pub fn import_status(job: Result<Result<ImportJob, ImportDbError>, DbFailure>) -> (r: Result<
    ImportJobResponse,
    AppError,
>)
    ensures
        match job {
            Ok(Ok(j)) => r matches Ok(answer) && answer@ == job_answer(
                j.id,
                j.workspace_id,
                j.source@,
                j.status@,
                j.document_ids@,
            ),
            _ => r matches Err(e) && stored_problem(job) matches Some(code) && e@
                == error::problem(code),
        },
{
    match job {
        Err(_) => Err(AppError::internal()),
        Ok(Err(e)) => Err(map_import_error(e)),
        Ok(Ok(j)) => Ok(
            job_response(
                j.id,
                j.workspace_id,
                j.source.as_str(),
                j.status.as_str(),
                j.document_ids.as_slice(),
            ),
        ),
    }
}

/// The body cap leaves room for the largest file in base64: four characters for every three
/// bytes, begun or whole.
pub proof fn law_largest_file_fits_the_body(file: Seq<u8>)
    requires
        file.len() <= IMPORT_HTTP_MAX_BYTES,
    ensures
        encoding::base64_text(file, false, true).len() <= IMPORT_BODY_MAX_BYTES,
{
    encoding::lemma_base64_length(file, false);
}

/// A file that fits has one reading only, whatever a request is refused for.
pub proof fn law_one_file(zip_base64: Option<String>, a: Seq<u8>, b: Seq<u8>)
    requires
        import_file(zip_base64, a),
        import_file(zip_base64, b),
    ensures
        a == b,
{
    if zip_base64 is Some {
        encoding::lemma_base64_injective(a, b);
    }
}

/// An import is accepted exactly where its source is known and its file can be read and is not too
/// large, and where what it needs is there: for a zip of texts the editor, for anything else a
/// runner and some bytes, for an office file one that is supported.
pub proof fn law_import_is_accepted_where_it_can_be_made(
    body: StartImportBody,
    source: Option<ImportSource>,
    file: Option<Seq<u8>>,
    tools: ImportTools,
    office_supported: bool,
)
    ensures
        import_problem(body, source, file, tools, office_supported) is None <==> (source is Some
            && file is Some && file->0.len() <= IMPORT_HTTP_MAX_BYTES && if source->0.kind
            == ImportKind::MarkdownZip {
            tools.seed && tools.markdown
        } else {
            tools.runner && file->0.len() > 0 && (source->0.kind == ImportKind::OfficeFile
                ==> office_supported)
        }),
        source is Some && file is Some && file->0.len() > IMPORT_HTTP_MAX_BYTES ==> import_problem(
            body,
            source,
            file,
            tools,
            office_supported,
        ) == Some(error::problem_with(413, ProblemCode::InvalidInput)),
{
}

/// What is imported is the file that was sent, under the name of its source; only a zip of texts is
/// imported at once.
pub proof fn law_sent_file_is_imported(
    body: StartImportBody,
    source: ImportSource,
    tools: ImportTools,
    office_supported: bool,
    r: Result<ImportPlan, AppError>,
)
    requires
        call_ensures(plan_import, (body, Some(source), tools, office_supported), r),
        r is Ok,
    ensures
        match r->Ok_0 {
            ImportPlan::Now { source: name, file } => source.kind == ImportKind::MarkdownZip && name
                == source.name && import_file(body.zip_base64, file@),
            ImportPlan::Later { source: name, file, file_name, project_id } => source.kind
                != ImportKind::MarkdownZip && name == source.name && import_file(
                body.zip_base64,
                file@,
            ) && file_name == body.file_name && project_id == body.project_id,
        },
{
}

/// An import that was made is answered with its own id, workspace and source and with the documents
/// that were made, in their order.
pub proof fn law_import_answers_what_was_made(
    job: Uuid,
    workspace_id: Uuid,
    source: &str,
    created: Vec<Uuid>,
    r: Result<ImportJobResponse, AppError>,
)
    requires
        call_ensures(import_completed, (job, workspace_id, source, Ok(created)), r),
    ensures
        r is Ok,
        ids::uuid_of(r->Ok_0.id@) == Some(job.0),
        ids::uuid_of(r->Ok_0.workspace_id@) == Some(workspace_id.0),
        r->Ok_0.source@ == source@,
        r->Ok_0.status@ == "completed"@,
        r->Ok_0.created_document_ids@.len() == created@.len(),
        forall|i: int|
            0 <= i < created@.len() ==> ids::uuid_of((#[trigger] r->Ok_0.created_document_ids@[i])@)
                == Some(created@[i].0),
{
    ids::law_uuid_round_trip(job.0);
    ids::law_uuid_round_trip(workspace_id.0);
    let out = r->Ok_0.created_document_ids@;
    let texts = crate::text::views(out);
    assert(r->Ok_0@.created_document_ids == ids::uuid_texts(created@));
    assert(texts.len() == created@.len());
    assert forall|i: int| 0 <= i < created@.len() implies ids::uuid_of((#[trigger] out[i])@)
        == Some(created@[i].0) by {
        ids::law_uuid_round_trip(created@[i].0);
        assert(texts[i] == out[i]@);
        assert(texts[i] == ids::uuid_text(created@[i].0));
    }
}

} // verus!
