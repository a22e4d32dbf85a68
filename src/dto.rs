use vstd::prelude::*;

verus! {

/// Which page of a listing to read: `page_size` rows after the first `offset`.
#[derive(Clone, Copy, PartialEq, Eq, Structural, Debug, Default)]
pub struct PaginationDTO {
    pub page_size: i32,
    pub offset: i32,
}

/// One page of a listing, with the number of rows in the whole table.
#[derive(Debug)]
pub struct PaginatedResponseDTO<T> {
    pub paginated_list: Vec<T>,
    pub count: i64,
}

/// The body of every successful response: a message and the payload.
#[derive(Clone, Debug)]
pub struct SuccessResponse<T> {
    pub message: String,
    pub data: T,
}

/// A member's name with the email of the user behind it.
#[derive(Clone, Debug, PartialEq, Eq)]
pub struct MemberEmail {
    pub name: String,
    pub email: String,
}

/// A member's user details together with the membership's identity number and role.
#[derive(Clone, Debug, PartialEq, Eq)]
pub struct MemberInfo {
    pub name: String,
    pub email: String,
    pub identity_num: String,
    pub role: String,
}

/// A name to filter members by.
#[derive(Clone, Debug, PartialEq, Eq)]
pub struct MemberName {
    pub name: String,
}

} // verus!
