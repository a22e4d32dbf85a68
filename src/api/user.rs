use vstd::prelude::*;

use crate::api::{answers, answers_page, respond, respond_page};
use crate::dto::{PaginatedResponseDTO, SuccessResponse};
use crate::error::{Error, Errors};
use crate::model::User;

verus! {

/// The response to a page of users.
pub fn list_users_api(count: Result<i64, Error>, page: Result<Vec<User>, Error>) -> (r: Result<
    SuccessResponse<PaginatedResponseDTO<User>>,
    Errors,
>)
    ensures
        answers_page(count, page, "Successfully retrieved all users."@, r),
{
    respond_page(count, page, "Successfully retrieved all users.")
}

/// The response to the insert of a user.
pub fn insert_user_api(inserted: Result<User, Error>) -> (r: Result<SuccessResponse<User>, Errors>)
    ensures
        answers(inserted, "Successfully added the new User."@, r),
{
    respond(inserted, "Successfully added the new User.")
}

} // verus!
