//! What the store says to a request, and how that is answered.

use vstd::prelude::*;
use crate::answer::Answer;
use crate::error;
use crate::error::{ApiError, ApiErrorView, AppError, DbFailure, ErrorView, ProblemCode};

verus! {

/// Why the store refused a request, and the problem that the caller is told.
pub trait Refusal {
    /// The problem.
    spec fn problem(&self) -> ErrorView;

    fn refusal(&self) -> (r: AppError)
        ensures
            r@ == self.problem(),
    ;
}

/// The problem of a request, if it has one: the store failed, or it refused.
pub open spec fn store_problem<T, E: Refusal>(found: Result<Result<T, E>, DbFailure>) -> Option<
    ErrorView,
> {
    match found {
        Err(_) => Some(error::problem(ProblemCode::Internal)),
        Ok(Err(e)) => Some(e.problem()),
        Ok(Ok(_)) => None,
    }
}

/// What the store gave, or the problem.
pub fn stored<T, E: Refusal>(found: Result<Result<T, E>, DbFailure>) -> (r: Result<T, AppError>)
    ensures
        match r {
            Ok(t) => found == Ok::<_, DbFailure>(Ok::<T, E>(t)),
            Err(e) => store_problem(found) == Some(e@),
        },
{
    match found {
        Err(_) => Err(AppError::internal()),
        Ok(Err(e)) => Err(e.refusal()),
        Ok(Ok(t)) => Ok(t),
    }
}

/// The answer with what the store gave, or the problem.
pub fn stored_reply<T: Answer, E: Refusal>(found: Result<Result<T, E>, DbFailure>) -> (r: Result<
    T::Out,
    AppError,
>)
    ensures
        match r {
            Ok(out) => found matches Ok(Ok(t)) && t.answered(&out),
            Err(e) => store_problem(found) == Some(e@),
        },
{
    match stored(found) {
        Err(e) => Err(e),
        Ok(t) => Ok(t.answer()),
    }
}

/// Why the store refused a request, where the problem may have a code of its own.
pub trait ApiRefusal {
    /// The problem.
    spec fn problem(&self) -> ApiErrorView;

    fn refusal(&self) -> (r: ApiError)
        ensures
            r@ == self.problem(),
    ;
}

/// The problem of a request, if it has one: the store failed, or it refused.
pub open spec fn api_store_problem<T, E: ApiRefusal>(
    found: Result<Result<T, E>, DbFailure>,
) -> Option<ApiErrorView> {
    match found {
        Err(_) => Some(error::api_problem(ProblemCode::Internal)),
        Ok(Err(e)) => Some(e.problem()),
        Ok(Ok(_)) => None,
    }
}

/// What the store gave, or the problem.
pub fn api_stored<T, E: ApiRefusal>(found: Result<Result<T, E>, DbFailure>) -> (r: Result<
    T,
    ApiError,
>)
    ensures
        match r {
            Ok(t) => found == Ok::<_, DbFailure>(Ok::<T, E>(t)),
            Err(e) => api_store_problem(found) == Some(e@),
        },
{
    match found {
        Err(_) => Err(ApiError::app(ProblemCode::Internal)),
        Ok(Err(e)) => Err(e.refusal()),
        Ok(Ok(t)) => Ok(t),
    }
}

/// The answer with what the store gave, or the problem.
pub fn api_stored_reply<T: Answer, E: ApiRefusal>(
    found: Result<Result<T, E>, DbFailure>,
) -> (r: Result<T::Out, ApiError>)
    ensures
        match r {
            Ok(out) => found matches Ok(Ok(t)) && t.answered(&out),
            Err(e) => api_store_problem(found) == Some(e@),
        },
{
    match api_stored(found) {
        Err(e) => Err(e),
        Ok(t) => Ok(t.answer()),
    }
}

/// Something that the store has, or that there is none.
pub fn present<T>(found: Result<Option<T>, DbFailure>) -> (r: Result<T, AppError>)
    ensures
        match found {
            Err(_) => error::refused(r, ProblemCode::Internal),
            Ok(None) => error::refused(r, ProblemCode::NotFound),
            Ok(Some(t)) => r == Ok::<T, AppError>(t),
        },
{
    match found {
        Err(_) => Err(AppError::internal()),
        Ok(None) => Err(AppError::from_code(ProblemCode::NotFound)),
        Ok(Some(t)) => Ok(t),
    }
}

/// The answer with something that the store has, or that there is none.
pub fn present_reply<T: Answer>(found: Result<Option<T>, DbFailure>) -> (r: Result<
    T::Out,
    AppError,
>)
    ensures
        match found {
            Err(_) => error::refused(r, ProblemCode::Internal),
            Ok(None) => error::refused(r, ProblemCode::NotFound),
            Ok(Some(t)) => r matches Ok(out) && t.answered(&out),
        },
{
    match present(found) {
        Err(e) => Err(e),
        Ok(t) => Ok(t.answer()),
    }
}

} // verus!
