use vstd::prelude::*;

use crate::api::{answers, answers_page, answers_removal, reports_done, respond, respond_done, respond_page, respond_removal};
use crate::dto::{PaginatedResponseDTO, SuccessResponse};
use crate::error::{Error, Errors};
use crate::model::Team;
use crate::store::DeleteOutcome;

verus! {

/// The response to a page of teams.
pub fn list_teams_api(count: Result<i64, Error>, page: Result<Vec<Team>, Error>) -> (r: Result<
    SuccessResponse<PaginatedResponseDTO<Team>>,
    Errors,
>)
    ensures
        answers_page(count, page, "Successfully retrieved all teams."@, r),
{
    respond_page(count, page, "Successfully retrieved all teams.")
}

/// The response to the insert of a team.
pub fn insert_team_api(inserted: Result<Team, Error>) -> (r: Result<SuccessResponse<Team>, Errors>)
    ensures
        answers(inserted, "Successfully added the new Team."@, r),
{
    respond(inserted, "Successfully added the new Team.")
}

/// The response to the insert of several teams.
pub fn insert_bulk_teams_api(inserted: Result<Vec<Team>, Error>) -> (r: Result<SuccessResponse<Vec<Team>>, Errors>)
    ensures
        answers(inserted, "Successfully added the bulk of Teams."@, r),
{
    respond(inserted, "Successfully added the bulk of Teams.")
}

/// The response to the removal of a team.
pub fn remove_team_api(outcome: DeleteOutcome) -> (r: Result<SuccessResponse<bool>, Errors>)
    ensures
        answers_removal(outcome, "Successfully deleted the team."@, r),
{
    respond_removal(outcome, "Successfully deleted the team.")
}

/// The response to the removal of all teams.
pub fn remove_all_teams_api(deleted: Result<Vec<Team>, Error>) -> (r: Result<SuccessResponse<bool>, Errors>)
    ensures
        reports_done(deleted, "Successfully deleted all teams."@, r),
{
    respond_done(deleted, "Successfully deleted all teams.")
}

/// The response to the lookup of a team.
pub fn find_team_by_id_api(found: Result<Team, Error>) -> (r: Result<SuccessResponse<Team>, Errors>)
    ensures
        answers(found, "Successfully found the Team."@, r),
{
    respond(found, "Successfully found the Team.")
}

} // verus!
