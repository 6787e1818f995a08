//! What a refused request is answered: problem codes and coded problems.

use vstd::prelude::*;

verus! {

/// The codes of the problems that requests are answered with.
#[derive(Clone, Copy, Debug, PartialEq, Eq, Structural)]
pub enum ProblemCode {
    AiUnavailable,
    AlreadyAccepted,
    AttachmentFailedVirusScan,
    AuthenticationRequired,
    CannotAcceptInvitation,
    CannotInviteARoleAboveYourOwn,
    CannotManageRoleAboveOwn,
    CollabTimeoutRetry,
    ConfirmInvalid,
    Conflict,
    ConsentRequired,
    EncryptionUnavailable,
    Expired,
    FileExceedsUploadMaxFileSizeMb,
    IdentityLinkNotFound,
    ImportFailed,
    InstanceSetupAlreadyCompleted,
    InsufficientPermissions,
    IntegrationUnavailable,
    /// A failure that is not the caller's.
    Internal,
    InvalidConsentsQuery,
    InvalidEmailOrPassword,
    InvalidInput,
    InvitationNotFoundOrExpired,
    LastInstanceAdmin,
    LimitGuests,
    LimitSeats,
    LimitStorage,
    LimitUpload,
    MagicInvalid,
    MfaAlreadyEnabled,
    MfaCodeInvalid,
    MfaConfirmInvalid,
    MfaInvalid,
    MfaNotEnabled,
    MfaNotSetup,
    MfaPasswordInvalid,
    MfaReauthRequired,
    NotFound,
    OidcLastMethod,
    OnlyTheUploaderMayContinueThisUpload,
    OriginMismatch,
    OwnerTransferRequired,
    PartExceedsUploadPartSizeMb,
    PasswordInvalid,
    PersonalWorkspaceImmutable,
    PreviewNotAvailable,
    ProjectArchived,
    ProviderNotConfigured,
    RangeNotSatisfiable,
    RateLimited,
    RawApplicationOctetStreamBodyRequired,
    RestoreRejected,
    SelfSuspension,
    SlugTaken,
    SubmittedPartsDoNotMatchUploadedParts,
    TaskArchived,
    UnsupportedBrandingAssetType,
    UnsupportedMediaType,
    /// No free slot for another upload.
    UploadCapacityExceeded,
    UploadIsNotInTheRequiredState,
    WorkspaceLastOwnerRequired,
    WorkspaceMemberSelfChangeForbidden,
}

/// What a problem says beyond its code.
#[derive(Debug)]
pub enum Params {
    /// `{"code": ...}`
    Code(String),
    /// `{"limit": ...}`
    Limit(u64),
}

/// The contents of `Params`.
pub enum ParamsView {
    Code(Seq<char>),
    Limit(u64),
}

impl View for Params {
    type V = ParamsView;

    open spec fn view(&self) -> ParamsView {
        match self {
            Params::Code(code) => ParamsView::Code(code@),
            Params::Limit(n) => ParamsView::Limit(*n),
        }
    }
}

/// A problem with one of the known codes.
#[derive(Debug)]
pub struct AppError {
    /// The status, where it is not the one that belongs to the code.
    pub status: Option<u16>,
    pub code: ProblemCode,
    /// The JSON pointer of the input at fault.
    pub source: Option<String>,
    pub params: Option<Params>,
    /// Seconds after which a retry may succeed.
    pub retry_after: Option<u32>,
}

/// The contents of an `AppError`.
#[verifier::ext_equal]
pub struct ErrorView {
    pub status: Option<u16>,
    pub code: ProblemCode,
    pub source: Option<Seq<char>>,
    pub params: Option<ParamsView>,
    pub retry_after: Option<u32>,
}

/// The view of an optional text.
pub open spec fn text_view(o: Option<String>) -> Option<Seq<char>> {
    match o {
        Some(s) => Some(s@),
        None => None,
    }
}

/// The view of an optional text that is borrowed.
pub open spec fn str_view(o: Option<&str>) -> Option<Seq<char>> {
    match o {
        Some(s) => Some(s@),
        None => None,
    }
}

impl View for AppError {
    type V = ErrorView;

    open spec fn view(&self) -> ErrorView {
        ErrorView {
            status: self.status,
            code: self.code,
            source: text_view(self.source),
            params: match self.params {
                Some(p) => Some(p@),
                None => None,
            },
            retry_after: self.retry_after,
        }
    }
}

/// The problem with this code and nothing more.
pub open spec fn problem(code: ProblemCode) -> ErrorView {
    ErrorView { status: None, code, source: None, params: None, retry_after: None }
}

/// The problem with this code, about the input at `source`.
pub open spec fn problem_at(code: ProblemCode, source: Seq<char>) -> ErrorView {
    ErrorView { status: None, code, source: Some(source), params: None, retry_after: None }
}

/// The problem with this code and a status of its own.
pub open spec fn problem_with(status: u16, code: ProblemCode) -> ErrorView {
    ErrorView { status: Some(status), code, source: None, params: None, retry_after: None }
}

/// The problem with a status of its own and a finer code among its parameters.
pub open spec fn problem_detail(status: u16, code: ProblemCode, detail: Seq<char>) -> ErrorView {
    ErrorView {
        status: Some(status),
        code,
        source: None,
        params: Some(ParamsView::Code(detail)),
        retry_after: None,
    }
}

/// The refusal of one request too many.
pub open spec fn too_many(retry_after: u32) -> ErrorView {
    ErrorView {
        status: None,
        code: ProblemCode::RateLimited,
        source: None,
        params: None,
        retry_after: Some(retry_after),
    }
}

/// The refusal of an upload for which no slot is free.
pub open spec fn no_capacity(retry_after: u32) -> ErrorView {
    ErrorView {
        status: None,
        code: ProblemCode::UploadCapacityExceeded,
        source: None,
        params: None,
        retry_after: Some(retry_after),
    }
}

impl AppError {
    pub fn from_code(code: ProblemCode) -> (r: Self)
        ensures
            r@ == problem(code),
    {
        AppError { status: None, code, source: None, params: None, retry_after: None }
    }

    pub fn with_source(code: ProblemCode, source: &str) -> (r: Self)
        ensures
            r@ == problem_at(code, source@),
    {
        AppError {
            status: None,
            code,
            source: Some(source.to_owned()),
            params: None,
            retry_after: None,
        }
    }

    pub fn problem(status: u16, code: ProblemCode) -> (r: Self)
        ensures
            r@ == problem_with(status, code),
    {
        AppError { status: Some(status), code, source: None, params: None, retry_after: None }
    }

    /// A problem with a finer code among its parameters.
    pub fn detail(status: u16, code: ProblemCode, detail: &str) -> (r: Self)
        ensures
            r@ == problem_detail(status, code, detail@),
    {
        AppError {
            status: Some(status),
            code,
            source: None,
            params: Some(Params::Code(detail.to_owned())),
            retry_after: None,
        }
    }

    pub fn internal() -> (r: Self)
        ensures
            r@ == problem(ProblemCode::Internal),
    {
        AppError::from_code(ProblemCode::Internal)
    }

    pub fn rate_limited(retry_after: u32) -> (r: Self)
        ensures
            r@ == too_many(retry_after),
    {
        AppError {
            status: None,
            code: ProblemCode::RateLimited,
            source: None,
            params: None,
            retry_after: Some(retry_after),
        }
    }

    pub fn upload_capacity_exceeded(retry_after: u32) -> (r: Self)
        ensures
            r@ == no_capacity(retry_after),
    {
        AppError {
            status: None,
            code: ProblemCode::UploadCapacityExceeded,
            source: None,
            params: None,
            retry_after: Some(retry_after),
        }
    }
}

/// What a request that was let pass or refused is told.
pub open spec fn told<T>(r: Result<T, AppError>) -> Result<(), ErrorView> {
    match r {
        Ok(_) => Ok(()),
        Err(e) => Err(e@),
    }
}

/// A request was refused with this problem and nothing more.
pub open spec fn refused<T>(r: Result<T, AppError>, code: ProblemCode) -> bool {
    r matches Err(e) && e@ == problem(code)
}

/// A request was refused with a problem at `source`.
pub open spec fn refused_at<T>(
    r: Result<T, AppError>,
    code: ProblemCode,
    source: Seq<char>,
) -> bool {
    r matches Err(e) && e@ == problem_at(code, source)
}

/// The store could not do what it was asked.
#[derive(Clone, Copy, Debug, PartialEq, Eq, Structural)]
pub struct DbFailure;

/// A problem with a code that only its route knows, or one of the known ones.
#[derive(Debug)]
pub enum ApiError {
    App(AppError),
    Coded { status: u16, code: String, title: String, params: Option<Params> },
}

/// The contents of an `ApiError`.
#[verifier::ext_equal]
pub enum ApiErrorView {
    App(ErrorView),
    Coded { status: u16, code: Seq<char>, title: Seq<char>, params: Option<ParamsView> },
}

impl View for ApiError {
    type V = ApiErrorView;

    open spec fn view(&self) -> ApiErrorView {
        match self {
            ApiError::App(e) => ApiErrorView::App(e@),
            ApiError::Coded { status, code, title, params } => ApiErrorView::Coded {
                status: *status,
                code: code@,
                title: title@,
                params: match params {
                    Some(p) => Some(p@),
                    None => None,
                },
            },
        }
    }
}

/// The problem of a route with this code and nothing more.
pub open spec fn api_problem(code: ProblemCode) -> ApiErrorView {
    ApiErrorView::App(problem(code))
}

/// The problem of a route with a code of its own.
pub open spec fn coded_problem(status: u16, code: Seq<char>, title: Seq<char>) -> ApiErrorView {
    ApiErrorView::Coded { status, code, title, params: None }
}

/// A request was refused by a route with this problem and nothing more.
pub open spec fn api_refused<T>(r: Result<T, ApiError>, code: ProblemCode) -> bool {
    r matches Err(e) && e@ == api_problem(code)
}

impl ApiError {
    pub fn app(code: ProblemCode) -> (r: Self)
        ensures
            r@ == api_problem(code),
    {
        ApiError::App(AppError::from_code(code))
    }

    pub fn coded(status: u16, code: &str, title: &str) -> (r: Self)
        ensures
            r@ == coded_problem(status, code@, title@),
    {
        ApiError::Coded { status, code: code.to_owned(), title: title.to_owned(), params: None }
    }
}

} // verus!
