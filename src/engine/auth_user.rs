use vstd::prelude::*;

use crate::dto::PaginationDTO;
use crate::engine::page_statement;
use crate::engine::page_statement_of;
use crate::error::Error;
use crate::ids::{is_v4, Id};
use crate::model::{AuthUser, NewUser};
use crate::password::{argon2id_phc, draw_salt, hash_with_salt};
use crate::store::{inserted_rows, Record, Statement};
use crate::validate::{is_valid_email, is_valid_password, valid_email, valid_password};

verus! {

impl Record for AuthUser {
    open spec fn key(&self) -> u128 {
        self.id.value
    }

    /// Auth users have no updatable fields.
    open spec fn updated_by(&self, incoming: Self) -> Self {
        *self
    }

    open spec fn refers_to_others(&self) -> bool {
        false
    }

    open spec fn referenced_by_others() -> bool {
        false
    }

    proof fn update_keeps_key(&self, incoming: Self) {
    }
}

/// What validation finds wrong with credentials: the email first, then the password.
pub open spec fn credentials_error(email: Seq<char>, password: Seq<char>) -> Option<Error> {
    if !valid_email(email) {
        Some(Error::InvalidEmail)
    } else if !valid_password(password) {
        Some(Error::InvalidPassword)
    } else {
        None
    }
}

/// Checks an email and a password.
pub fn check_credentials(email: &String, password: &String) -> (r: Option<Error>)
    ensures
        r == credentials_error(email@, password@),
{
    if !is_valid_email(email) {
        Some(Error::InvalidEmail)
    } else if !is_valid_password(password) {
        Some(Error::InvalidPassword)
    } else {
        None
    }
}

/// Whether `row` is the auth user made from the sign-up `new`: its email
/// under a version 4 id, and its password hashed with Argon2id under some
/// salt, never stored as sent.
pub open spec fn auth_user_from(new: NewUser, row: AuthUser) -> bool {
    &&& row.email == new.email
    &&& is_v4(row.id.value)
    &&& exists|salt: Seq<char>| row.password@ == #[trigger] argon2id_phc(new.password@, salt)
}

/// The auth user made from `new` under `id`, its password hashed with
/// `salt`; `None` when hashing fails.
pub fn auth_user_with_salt(new: &NewUser, id: Id, salt: &String) -> (r: Option<AuthUser>)
    ensures
        r matches Some(row) ==> row.id == id && row.email == new.email && row.password@ == argon2id_phc(
            new.password@,
            salt@,
        ),
{
    match hash_with_salt(&new.password, salt) {
        Some(hashed) => Some(AuthUser { id, email: new.email.clone(), password: hashed }),
        None => None,
    }
}

/// The auth user made from `new` under a fresh id, its password hashed
/// under a fresh salt; `None` when hashing fails.
fn auth_user_row(new: &NewUser) -> (r: Option<AuthUser>)
    ensures
        r matches Some(row) ==> auth_user_from(*new, row),
{
    let salt = draw_salt();
    let r = auth_user_with_salt(new, Id::new_v4(), &salt);
    assert(r matches Some(row) ==> row.password@ == argon2id_phc(new.password@, salt@));
    r
}

impl NewUser {
    /// The statement that stores these credentials as an auth user under a
    /// fresh id, with the password hashed. Invalid credentials are refused
    /// before reaching the store; with valid ones, only a failure of the
    /// hashing stops the statement.
    pub fn add_auth_user(&self) -> (r: Result<Statement<AuthUser>, Error>)
        ensures
            credentials_error(self.email@, self.password@) matches Some(e) ==> r == Err::<
                Statement<AuthUser>,
                Error,
            >(e),
            credentials_error(self.email@, self.password@) is None ==> r is Ok || r == Err::<
                Statement<AuthUser>,
                Error,
            >(Error::HashingError),
            r matches Ok(s) ==> s is Insert && inserted_rows(s).len() == 1 && auth_user_from(
                *self,
                inserted_rows(s)[0],
            ),
    {
        match check_credentials(&self.email, &self.password) {
            Some(e) => Err(e),
            None => match auth_user_row(self) {
                Some(row) => {
                    let mut rows: Vec<AuthUser> = Vec::new();
                    rows.push(row);
                    Ok(Statement::Insert(rows))
                },
                None => Err(Error::HashingError),
            },
        }
    }
}

/// Whether `e` is what validation reports on the first row of `rows` that fails it.
pub open spec fn first_credentials_error(rows: Seq<AuthUser>, e: Error) -> bool {
    exists|i: int|
        0 <= i < rows.len() && credentials_error(rows[i].email@, rows[i].password@) == Some(e)
            && forall|j: int|
            0 <= j < i ==> (#[trigger] credentials_error(rows[j].email@, rows[j].password@)) is None
}

/// Whether every row of `rows` passes validation.
pub open spec fn all_credentials_valid(rows: Seq<AuthUser>) -> bool {
    forall|i: int| 0 <= i < rows.len() ==> (#[trigger] credentials_error(rows[i].email@, rows[i].password@)) is None
}

/// The statement that stores all the auth users at once. If one fails
/// validation, the first such row's error is returned instead.
pub fn insert_bulk_auth_users(other_auth_users: Vec<AuthUser>) -> (r: Result<Statement<AuthUser>, Error>)
    ensures
        r is Ok <==> all_credentials_valid(other_auth_users@),
        r matches Err(e) ==> first_credentials_error(other_auth_users@, e),
        r matches Ok(s) ==> s == Statement::Insert(other_auth_users),
{
    let mut i: usize = 0;
    while i < other_auth_users.len()
        invariant
            i <= other_auth_users@.len(),
            forall|j: int| 0 <= j < i ==> (#[trigger] credentials_error(
                other_auth_users@[j].email@,
                other_auth_users@[j].password@,
            )) is None,
        decreases other_auth_users@.len() - i,
    {
        let row = &other_auth_users[i];
        match check_credentials(&row.email, &row.password) {
            Some(e) => {
                return Err(e);
            },
            None => {},
        }
        i = i + 1;
    }
    Ok(Statement::Insert(other_auth_users))
}

/// Whether `e` is what validation reports on the first sign-up of `news` that fails it.
pub open spec fn first_new_user_error(news: Seq<NewUser>, e: Error) -> bool {
    exists|i: int|
        0 <= i < news.len() && credentials_error(news[i].email@, news[i].password@) == Some(e)
            && forall|j: int|
            0 <= j < i ==> (#[trigger] credentials_error(news[j].email@, news[j].password@)) is None
}

/// Whether every sign-up of `news` passes validation.
pub open spec fn all_new_users_valid(news: Seq<NewUser>) -> bool {
    forall|i: int| 0 <= i < news.len() ==> (#[trigger] credentials_error(news[i].email@, news[i].password@)) is None
}

/// The statement that stores every sign-up of `new_users` as an auth user,
/// each under a fresh id and with its password hashed, in one insert. If
/// one fails validation, the first such sign-up's error is returned instead;
/// if all pass, only a failure of the hashing stops the statement.
pub fn new_auth_users(new_users: &Vec<NewUser>) -> (r: Result<Statement<AuthUser>, Error>)
    ensures
        !all_new_users_valid(new_users@) ==> (r matches Err(e) && first_new_user_error(new_users@, e)),
        all_new_users_valid(new_users@) ==> r is Ok || r == Err::<Statement<AuthUser>, Error>(
            Error::HashingError,
        ),
        r matches Ok(s) ==> s is Insert && inserted_rows(s).len() == new_users@.len() && forall|i: int|
            0 <= i < new_users@.len() ==> auth_user_from(new_users@[i], #[trigger] inserted_rows(s)[i]),
{
    let mut i: usize = 0;
    while i < new_users.len()
        invariant
            i <= new_users@.len(),
            forall|j: int| 0 <= j < i ==> (#[trigger] credentials_error(
                new_users@[j].email@,
                new_users@[j].password@,
            )) is None,
        decreases new_users@.len() - i,
    {
        let new = &new_users[i];
        match check_credentials(&new.email, &new.password) {
            Some(e) => {
                return Err(e);
            },
            None => {},
        }
        i = i + 1;
    }
    let mut rows: Vec<AuthUser> = Vec::new();
    let mut k: usize = 0;
    while k < new_users.len()
        invariant
            k <= new_users@.len(),
            rows@.len() == k,
            all_new_users_valid(new_users@),
            forall|j: int| 0 <= j < k ==> auth_user_from(new_users@[j], #[trigger] rows@[j]),
        decreases new_users@.len() - k,
    {
        match auth_user_row(&new_users[k]) {
            Some(row) => rows.push(row),
            None => {
                return Err(Error::HashingError);
            },
        }
        k = k + 1;
    }
    Ok(Statement::Insert(rows))
}

/// The statement for a page of auth users.
pub fn list_all_auth_users(pagination_dto: &PaginationDTO) -> (r: Result<Statement<AuthUser>, Error>)
    ensures
        r == page_statement_of::<AuthUser>(*pagination_dto),
{
    page_statement(pagination_dto)
}

/// The statement that counts the auth users.
pub fn count_auth_users() -> (r: Statement<AuthUser>)
    ensures
        r == Statement::<AuthUser>::Count,
{
    Statement::Count
}

/// The statement that removes the auth user with this id.
pub fn delete_auth_user_by_id(other_auth_user_id: Id) -> (r: Statement<AuthUser>)
    ensures
        r == Statement::<AuthUser>::Delete(other_auth_user_id),
{
    Statement::Delete(other_auth_user_id)
}

/// The statement that removes every auth user and hands the removed rows back.
pub fn delete_all_auth_users() -> (r: Statement<AuthUser>)
    ensures
        r == Statement::<AuthUser>::DeleteAll,
{
    Statement::DeleteAll
}

/// The statement that reads the auth user with this id.
pub fn find_auth_user_by_id(other_auth_user_id: Id) -> (r: Statement<AuthUser>)
    ensures
        r == Statement::<AuthUser>::Find(other_auth_user_id),
{
    Statement::Find(other_auth_user_id)
}

} // verus!
