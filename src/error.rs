use vstd::prelude::*;

verus! {

/// Why a repository call failed.
#[derive(Clone, Copy, PartialEq, Eq, Structural, Debug)]
pub enum Error {
    /// The store refused an insert: a key is taken, or a reference does not resolve.
    DuplicationError,
    /// Any other failure of the store, or an answer that does not fit the statement.
    DBError,
    /// The store holds no row with the requested id.
    NotFound,
    /// A page was asked for with a negative size or offset; nothing reached the store.
    PaginationError,
    /// An email address failed validation; nothing reached the store.
    InvalidEmail,
    /// A password is shorter than 9 or longer than 127 characters; nothing reached the store.
    InvalidPassword,
    /// Hashing a password failed; nothing reached the store.
    HashingError,
    /// A text that should name a row is no id at all; nothing reached the store.
    MalformedId,
}

/// The kind of failure that a response reports.
#[derive(Clone, Copy, PartialEq, Eq, Structural, Debug)]
pub enum StateCode {
    DBError,
    NotFound,
    PaginationError,
    ValidationError,
    /// Removing the members failed, and the auth users deleted before were put back.
    RolledBack,
    /// Removing the members failed, and putting the deleted auth users back failed too.
    RollbackFailed,
}

/// A failed response, by the HTTP status class it is sent with.
#[derive(Clone, Copy, PartialEq, Eq, Structural, Debug)]
pub enum Errors {
    BadRequest(StateCode),
    NotFound(StateCode),
    InternalServerError(StateCode),
}

impl Errors {
    /// The HTTP status code of the response.
    pub fn status_code(&self) -> (r: u16)
        ensures
            r == match *self {
                Errors::BadRequest(_) => 400u16,
                Errors::NotFound(_) => 404u16,
                Errors::InternalServerError(_) => 500u16,
            },
    {
        match self {
            Errors::BadRequest(_) => 400,
            Errors::NotFound(_) => 404,
            Errors::InternalServerError(_) => 500,
        }
    }

    /// The kind of failure reported.
    pub fn state_code(&self) -> (r: StateCode)
        ensures
            r == match *self {
                Errors::BadRequest(c) => c,
                Errors::NotFound(c) => c,
                Errors::InternalServerError(c) => c,
            },
    {
        match self {
            Errors::BadRequest(c) => *c,
            Errors::NotFound(c) => *c,
            Errors::InternalServerError(c) => *c,
        }
    }
}

} // verus!
