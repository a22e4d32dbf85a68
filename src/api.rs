use vstd::prelude::*;

use crate::dto::{PaginatedResponseDTO, SuccessResponse};
use crate::error::{Error, Errors, StateCode};
use crate::store::DeleteOutcome;

pub mod auth_user;
pub mod member;
pub mod team;
pub mod user;

verus! {

/// The failed response for a repository error: a missing row is a 404, bad
/// input a 400, anything else a 500.
pub open spec fn error_response(e: Error) -> Errors {
    match e {
        Error::NotFound => Errors::NotFound(StateCode::NotFound),
        Error::PaginationError => Errors::BadRequest(StateCode::PaginationError),
        Error::InvalidEmail | Error::InvalidPassword | Error::MalformedId => Errors::BadRequest(
            StateCode::ValidationError,
        ),
        Error::DuplicationError | Error::DBError | Error::HashingError => Errors::InternalServerError(
            StateCode::DBError,
        ),
    }
}

/// Maps a repository error to its failed response.
pub fn to_response_error(e: Error) -> (r: Errors)
    ensures
        r == error_response(e),
{
    match e {
        Error::NotFound => Errors::NotFound(StateCode::NotFound),
        Error::PaginationError => Errors::BadRequest(StateCode::PaginationError),
        Error::InvalidEmail | Error::InvalidPassword | Error::MalformedId => Errors::BadRequest(
            StateCode::ValidationError,
        ),
        Error::DuplicationError | Error::DBError | Error::HashingError => Errors::InternalServerError(
            StateCode::DBError,
        ),
    }
}

/// Whether `resp` answers `result`: on success the payload with `message`,
/// on failure the error's response.
pub open spec fn answers<T>(result: Result<T, Error>, message: Seq<char>, resp: Result<SuccessResponse<T>, Errors>) -> bool {
    match result {
        Ok(v) => resp matches Ok(s) && s.data == v && s.message@ == message,
        Err(e) => resp == Err::<SuccessResponse<T>, Errors>(error_response(e)),
    }
}

/// The response to a repository result.
pub fn respond<T>(result: Result<T, Error>, message: &str) -> (r: Result<SuccessResponse<T>, Errors>)
    ensures
        answers(result, message@, r),
{
    match result {
        Ok(data) => Ok(SuccessResponse { message: String::from_str(message), data }),
        Err(e) => Err(to_response_error(e)),
    }
}

/// Whether `resp` reports that a statement with the result `result` is done:
/// `true` with `message`, or a 500 when it failed.
pub open spec fn reports_done<T>(result: Result<T, Error>, message: Seq<char>, resp: Result<SuccessResponse<bool>, Errors>) -> bool {
    match result {
        Ok(_) => resp matches Ok(s) && s.data && s.message@ == message,
        Err(_) => resp == Err::<SuccessResponse<bool>, Errors>(Errors::InternalServerError(StateCode::DBError)),
    }
}

/// The response to a statement whose rows the caller does not need.
pub fn respond_done<T>(result: Result<T, Error>, message: &str) -> (r: Result<SuccessResponse<bool>, Errors>)
    ensures
        reports_done(result, message@, r),
{
    match result {
        Ok(_) => Ok(SuccessResponse { message: String::from_str(message), data: true }),
        Err(_) => Err(Errors::InternalServerError(StateCode::DBError)),
    }
}

/// Whether `resp` answers a removal by id with the outcome `outcome`:
/// `true` with `message`, a 404 when no row had the id, a 500 on a fault.
pub open spec fn answers_removal(outcome: DeleteOutcome, message: Seq<char>, resp: Result<SuccessResponse<bool>, Errors>) -> bool {
    match outcome {
        DeleteOutcome::Deleted => resp matches Ok(s) && s.data && s.message@ == message,
        DeleteOutcome::NotFound => resp == Err::<SuccessResponse<bool>, Errors>(Errors::NotFound(StateCode::NotFound)),
        DeleteOutcome::StoreError => resp == Err::<SuccessResponse<bool>, Errors>(
            Errors::InternalServerError(StateCode::DBError),
        ),
    }
}

/// The response to a removal by id.
pub fn respond_removal(outcome: DeleteOutcome, message: &str) -> (r: Result<SuccessResponse<bool>, Errors>)
    ensures
        answers_removal(outcome, message@, r),
{
    match outcome {
        DeleteOutcome::Deleted => Ok(SuccessResponse { message: String::from_str(message), data: true }),
        DeleteOutcome::NotFound => Err(Errors::NotFound(StateCode::NotFound)),
        DeleteOutcome::StoreError => Err(Errors::InternalServerError(StateCode::DBError)),
    }
}

/// Whether `resp` answers a paginated read. A failed count is a 500; a
/// failed page, after a good count, a 400; else the page with the count.
pub open spec fn answers_page<R>(
    count: Result<i64, Error>,
    page: Result<Vec<R>, Error>,
    message: Seq<char>,
    resp: Result<SuccessResponse<PaginatedResponseDTO<R>>, Errors>,
) -> bool {
    match count {
        Err(_) => resp == Err::<SuccessResponse<PaginatedResponseDTO<R>>, Errors>(
            Errors::InternalServerError(StateCode::DBError),
        ),
        Ok(n) => match page {
            Err(_) => resp == Err::<SuccessResponse<PaginatedResponseDTO<R>>, Errors>(
                Errors::BadRequest(StateCode::PaginationError),
            ),
            Ok(v) => resp matches Ok(s) && s.message@ == message && s.data.paginated_list == v
                && s.data.count == n,
        },
    }
}

/// The response to a paginated read from the results of its count and its page.
pub fn respond_page<R>(count: Result<i64, Error>, page: Result<Vec<R>, Error>, message: &str) -> (r: Result<
    SuccessResponse<PaginatedResponseDTO<R>>,
    Errors,
>)
    ensures
        answers_page(count, page, message@, r),
{
    match count {
        Err(_) => Err(Errors::InternalServerError(StateCode::DBError)),
        Ok(n) => match page {
            Err(_) => Err(Errors::BadRequest(StateCode::PaginationError)),
            Ok(v) => Ok(
                SuccessResponse {
                    message: String::from_str(message),
                    data: PaginatedResponseDTO { paginated_list: v, count: n },
                },
            ),
        },
    }
}

} // verus!
