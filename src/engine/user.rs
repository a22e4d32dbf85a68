use vstd::prelude::*;

use crate::dto::PaginationDTO;
use crate::engine::page_statement;
use crate::engine::page_statement_of;
use crate::error::Error;
use crate::ids::{is_v4, Id};
use crate::model::{NewUser, User};
use crate::store::{inserted_rows, Record, Statement};
use crate::validate::{is_valid_email, valid_email};

verus! {

impl Record for User {
    open spec fn key(&self) -> u128 {
        self.id.value
    }

    /// Users have no updatable fields.
    open spec fn updated_by(&self, incoming: Self) -> Self {
        *self
    }

    open spec fn refers_to_others(&self) -> bool {
        false
    }

    /// Members refer to their user.
    open spec fn referenced_by_others() -> bool {
        true
    }

    proof fn update_keeps_key(&self, incoming: Self) {
    }
}

/// Whether `row` is the user made from `new`: its email and name under a
/// version 4 id.
pub open spec fn user_from(new: NewUser, row: User) -> bool {
    &&& row.email == new.email
    &&& row.name == new.name
    &&& is_v4(row.id.value)
}

impl NewUser {
    /// The statement that stores this user under a fresh id. An invalid email
    /// is refused before reaching the store.
    pub fn add_user(&self) -> (r: Result<Statement<User>, Error>)
        ensures
            r is Ok <==> valid_email(self.email@),
            r matches Err(e) ==> e == Error::InvalidEmail,
            r matches Ok(s) ==> s is Insert && inserted_rows(s).len() == 1 && user_from(
                *self,
                inserted_rows(s)[0],
            ),
    {
        if !is_valid_email(&self.email) {
            return Err(Error::InvalidEmail);
        }
        let mut rows: Vec<User> = Vec::new();
        rows.push(User { id: Id::new_v4(), email: self.email.clone(), name: self.name.clone() });
        Ok(Statement::Insert(rows))
    }
}

/// Whether every user of `rows` has a valid email.
pub open spec fn all_emails_valid(rows: Seq<User>) -> bool {
    forall|i: int| 0 <= i < rows.len() ==> valid_email(#[trigger] rows[i].email@)
}

/// The statement that stores all the users at once; refused before reaching
/// the store if one of them has an invalid email.
pub fn insert_bulk_users(other_users: Vec<User>) -> (r: Result<Statement<User>, Error>)
    ensures
        r is Ok <==> all_emails_valid(other_users@),
        r matches Err(e) ==> e == Error::InvalidEmail,
        r matches Ok(s) ==> s == Statement::Insert(other_users),
{
    let mut i: usize = 0;
    while i < other_users.len()
        invariant
            i <= other_users@.len(),
            forall|j: int| 0 <= j < i ==> valid_email(#[trigger] other_users@[j].email@),
        decreases other_users@.len() - i,
    {
        if !is_valid_email(&other_users[i].email) {
            return Err(Error::InvalidEmail);
        }
        i = i + 1;
    }
    Ok(Statement::Insert(other_users))
}

/// The statement for a page of users.
pub fn list_all_users(pagination_dto: &PaginationDTO) -> (r: Result<Statement<User>, Error>)
    ensures
        r == page_statement_of::<User>(*pagination_dto),
{
    page_statement(pagination_dto)
}

/// The statement that counts the users.
pub fn count_users() -> (r: Statement<User>)
    ensures
        r == Statement::<User>::Count,
{
    Statement::Count
}

/// The statement that reads the user with this id.
pub fn find_user_by_id(other_user_id: Id) -> (r: Statement<User>)
    ensures
        r == Statement::<User>::Find(other_user_id),
{
    Statement::Find(other_user_id)
}

} // verus!
