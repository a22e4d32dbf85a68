use vstd::prelude::*;

use crate::dto::PaginationDTO;
use crate::error::Error;
use crate::store::Statement;

pub mod auth_user;
pub mod member;
pub mod team;
pub mod user;

verus! {

/// The statement for a page of a listing; a negative size or offset is
/// refused before reaching the store.
pub open spec fn page_statement_of<R>(p: PaginationDTO) -> Result<Statement<R>, Error> {
    if p.page_size < 0 || p.offset < 0 {
        Err(Error::PaginationError)
    } else {
        Ok(Statement::Page { limit: p.page_size as i64, offset: p.offset as i64 })
    }
}

/// Builds the statement for a page of a listing.
pub fn page_statement<R>(p: &PaginationDTO) -> (r: Result<Statement<R>, Error>)
    ensures
        r == page_statement_of::<R>(*p),
{
    if p.page_size < 0 || p.offset < 0 {
        Err(Error::PaginationError)
    } else {
        Ok(Statement::Page { limit: p.page_size as i64, offset: p.offset as i64 })
    }
}

} // verus!
