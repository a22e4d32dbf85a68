use vstd::prelude::*;

use crate::api::{answers, answers_page, answers_removal, respond, respond_page, respond_removal};
use crate::cleanup::CleanupOutcome;
use crate::dto::{PaginatedResponseDTO, SuccessResponse};
use crate::error::{Error, Errors, StateCode};
use crate::model::AuthUser;
use crate::store::DeleteOutcome;

verus! {

/// The response to a page of auth users.
pub fn list_auth_users_api(count: Result<i64, Error>, page: Result<Vec<AuthUser>, Error>) -> (r: Result<
    SuccessResponse<PaginatedResponseDTO<AuthUser>>,
    Errors,
>)
    ensures
        answers_page(count, page, "Successfully retrieved all auth users."@, r),
{
    respond_page(count, page, "Successfully retrieved all auth users.")
}

/// The response to the insert of an auth user.
pub fn insert_auth_user_api(inserted: Result<AuthUser, Error>) -> (r: Result<SuccessResponse<AuthUser>, Errors>)
    ensures
        answers(inserted, "Successfully added the new Auth User."@, r),
{
    respond(inserted, "Successfully added the new Auth User.")
}

/// The response to the removal of an auth user.
pub fn remove_auth_user_api(outcome: DeleteOutcome) -> (r: Result<SuccessResponse<bool>, Errors>)
    ensures
        answers_removal(outcome, "Successfully deleted the auth_user."@, r),
{
    respond_removal(outcome, "Successfully deleted the auth_user.")
}

/// The failed response for an outcome of the removal of all auth users and
/// members, or none when it completed.
pub open spec fn cleanup_error(outcome: CleanupOutcome) -> Option<Errors> {
    match outcome {
        CleanupOutcome::Completed => None,
        CleanupOutcome::NothingDeleted => Some(Errors::InternalServerError(StateCode::DBError)),
        CleanupOutcome::Restored => Some(Errors::InternalServerError(StateCode::RolledBack)),
        CleanupOutcome::RestoreFailed => Some(Errors::InternalServerError(StateCode::RollbackFailed)),
    }
}

/// The response to the removal of all auth users and members. Every
/// failure is a 500, and says whether the auth users were put back.
pub fn remove_all_auth_users_api(outcome: CleanupOutcome) -> (r: Result<SuccessResponse<bool>, Errors>)
    ensures
        match cleanup_error(outcome) {
            None => r matches Ok(s) && s.data && s.message@ == "Successfully deleted all auth_users."@,
            Some(e) => r == Err::<SuccessResponse<bool>, Errors>(e),
        },
{
    match outcome {
        CleanupOutcome::Completed => Ok(
            SuccessResponse { message: String::from_str("Successfully deleted all auth_users."), data: true },
        ),
        CleanupOutcome::NothingDeleted => Err(Errors::InternalServerError(StateCode::DBError)),
        CleanupOutcome::Restored => Err(Errors::InternalServerError(StateCode::RolledBack)),
        CleanupOutcome::RestoreFailed => Err(Errors::InternalServerError(StateCode::RollbackFailed)),
    }
}

/// The response to the lookup of an auth user.
pub fn find_auth_user_by_id_api(found: Result<AuthUser, Error>) -> (r: Result<SuccessResponse<AuthUser>, Errors>)
    ensures
        answers(found, "Successfully found the Auth User."@, r),
{
    respond(found, "Successfully found the Auth User.")
}

} // verus!
