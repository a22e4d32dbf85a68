use vstd::prelude::*;

use crate::api::{
    answers, answers_page, answers_removal, error_response, reports_done, respond, respond_done, respond_page,
    respond_removal, to_response_error,
};
use crate::dto::{MemberEmail, MemberInfo, PaginatedResponseDTO, SuccessResponse};
use crate::error::{Error, Errors};
use crate::model::{Member, Name, User};
use crate::store::DeleteOutcome;

verus! {

/// The response to the lookup of the user behind a member: its name and email.
pub fn find_member_email_api(user: Result<User, Error>) -> (r: Result<SuccessResponse<MemberEmail>, Errors>)
    ensures
        match user {
            Ok(u) => r matches Ok(s) && s.data == (MemberEmail { name: u.name, email: u.email })
                && s.message@ == "Successfully find the Member Email."@,
            Err(e) => r == Err::<SuccessResponse<MemberEmail>, Errors>(error_response(e)),
        },
{
    match user {
        Ok(u) => Ok(
            SuccessResponse {
                message: String::from_str("Successfully find the Member Email."),
                data: MemberEmail { name: u.name, email: u.email },
            },
        ),
        Err(e) => Err(to_response_error(e)),
    }
}

/// The response to the lookups of a user and of a membership: the user's
/// name and email with the membership's identity number and role. A failed
/// user lookup is reported before a failed membership lookup.
pub fn find_member_info_api(user: Result<User, Error>, member: Result<Member, Error>) -> (r: Result<
    SuccessResponse<MemberInfo>,
    Errors,
>)
    ensures
        match (user, member) {
            (Err(e), _) => r == Err::<SuccessResponse<MemberInfo>, Errors>(error_response(e)),
            (Ok(_), Err(e)) => r == Err::<SuccessResponse<MemberInfo>, Errors>(error_response(e)),
            (Ok(u), Ok(m)) => r matches Ok(s) && s.data == (MemberInfo {
                name: u.name,
                email: u.email,
                identity_num: m.identity_num,
                role: m.role,
            }) && s.message@ == "Successfully find the Member Info."@,
        },
{
    match user {
        Err(e) => Err(to_response_error(e)),
        Ok(u) => match member {
            Err(e) => Err(to_response_error(e)),
            Ok(m) => Ok(
                SuccessResponse {
                    message: String::from_str("Successfully find the Member Info."),
                    data: MemberInfo { name: u.name, email: u.email, identity_num: m.identity_num, role: m.role },
                },
            ),
        },
    }
}

/// The response to a page of members.
pub fn list_members_api(count: Result<i64, Error>, page: Result<Vec<Member>, Error>) -> (r: Result<
    SuccessResponse<PaginatedResponseDTO<Member>>,
    Errors,
>)
    ensures
        answers_page(count, page, "Successfully retrieved all members."@, r),
{
    respond_page(count, page, "Successfully retrieved all members.")
}

/// The response to the insert of a member.
pub fn insert_member_api(inserted: Result<Member, Error>) -> (r: Result<SuccessResponse<Member>, Errors>)
    ensures
        answers(inserted, "Successfully added the new Member."@, r),
{
    respond(inserted, "Successfully added the new Member.")
}

/// The response to the insert of several members.
pub fn insert_bulk_members_api(inserted: Result<Vec<Member>, Error>) -> (r: Result<
    SuccessResponse<Vec<Member>>,
    Errors,
>)
    ensures
        answers(inserted, "Successfully added the bulk of Members."@, r),
{
    respond(inserted, "Successfully added the bulk of Members.")
}

/// The response to the removal of a member.
pub fn remove_member_api(outcome: DeleteOutcome) -> (r: Result<SuccessResponse<bool>, Errors>)
    ensures
        answers_removal(outcome, "Successfully deleted the member."@, r),
{
    respond_removal(outcome, "Successfully deleted the member.")
}

/// The response to the removal of all members.
pub fn remove_all_members_api(deleted: Result<Vec<Member>, Error>) -> (r: Result<SuccessResponse<bool>, Errors>)
    ensures
        reports_done(deleted, "Successfully deleted all members."@, r),
{
    respond_done(deleted, "Successfully deleted all members.")
}

/// The response to the members filtered by name.
pub fn filter_members_by_name_api(filtered: Result<Vec<Member>, Error>) -> (r: Result<
    SuccessResponse<Vec<Member>>,
    Errors,
>)
    ensures
        answers(filtered, "Successfully retrieved the filtered members."@, r),
{
    respond(filtered, "Successfully retrieved the filtered members.")
}

/// The response to the names of a team's members.
pub fn get_all_member_names_related_to_team_api(names: Result<Vec<Name>, Error>) -> (r: Result<
    SuccessResponse<Vec<Name>>,
    Errors,
>)
    ensures
        answers(names, "Successfully retrieved all member names."@, r),
{
    respond(names, "Successfully retrieved all member names.")
}

} // verus!
