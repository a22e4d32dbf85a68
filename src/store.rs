use vstd::prelude::*;

use crate::error::Error;
use crate::ids::Id;

verus! {

/// A row of one of the store's tables.
pub trait Record: Sized {
    /// The row's primary key.
    spec fn key(&self) -> u128;

    /// The row that an update carrying `incoming` leaves in place of `self`.
    spec fn updated_by(&self, incoming: Self) -> Self;

    /// Whether the row refers to rows of other tables, which the store checks
    /// on insert and may refuse.
    spec fn refers_to_others(&self) -> bool;

    /// Whether rows of other tables may refer to rows of this one, so that the
    /// store may refuse to delete one.
    spec fn referenced_by_others() -> bool;

    /// An update never moves a row to another key.
    proof fn update_keeps_key(&self, incoming: Self)
        ensures
            self.updated_by(incoming).key() == self.key(),
    ;
}

/// One statement against the table of `R` rows.
#[derive(Debug)]
pub enum Statement<R> {
    /// Insert all the rows, or none of them.
    Insert(Vec<R>),
    /// Read at most `limit` rows, skipping the first `offset`.
    Page { limit: i64, offset: i64 },
    /// Count the rows.
    Count,
    /// Read the row with this id.
    Find(Id),
    /// Delete the row with this id.
    Delete(Id),
    /// Delete every row, returning the deleted rows.
    DeleteAll,
    /// Overwrite the updatable fields of the row with the same id, returning the new row.
    Update(R),
}

/// The store's answer to a statement.
#[derive(Debug)]
pub enum Reply<R> {
    /// The rows read, inserted, updated or deleted.
    Rows(Vec<R>),
    /// The number of rows counted.
    Count(i64),
    /// The number of rows a delete removed.
    Affected(u64),
    /// No row has the requested id.
    Missing,
    /// An insert broke a uniqueness or reference constraint.
    Conflict,
    /// Anything else went wrong.
    Failed,
}

/// The rows that a statement inserts; none for any other statement.
pub open spec fn inserted_rows<R>(s: Statement<R>) -> Seq<R> {
    match s {
        Statement::Insert(rows) => rows@,
        _ => Seq::empty(),
    }
}

/// Whether some row of `t` has the key `k`.
pub open spec fn has_key<R: Record>(t: Seq<R>, k: u128) -> bool {
    exists|i: int| 0 <= i < t.len() && #[trigger] t[i].key() == k
}

/// Whether no two rows of `t` share a key: the primary key constraint.
pub open spec fn keys_unique<R: Record>(t: Seq<R>) -> bool {
    forall|i: int, j: int|
        0 <= i < t.len() && 0 <= j < t.len() && i != j ==> #[trigger] t[i].key() != #[trigger] t[j].key()
}

/// Whether the rows can go into `t` together: their keys are distinct and all free in `t`.
pub open spec fn can_insert<R: Record>(t: Seq<R>, rows: Seq<R>) -> bool {
    &&& keys_unique(rows)
    &&& forall|i: int| 0 <= i < rows.len() ==> !has_key(t, #[trigger] rows[i].key())
}

/// Where the row with key `k` stands in `t`.
pub open spec fn position<R: Record>(t: Seq<R>, k: u128) -> int
    recommends
        has_key(t, k),
{
    choose|i: int| 0 <= i < t.len() && #[trigger] t[i].key() == k
}

/// How many rows a page of at most `limit` rows after the first `offset` of
/// `n` rows holds.
pub open spec fn page_len(n: int, limit: int, offset: int) -> int {
    if offset >= n {
        0
    } else if limit < n - offset {
        limit
    } else {
        n - offset
    }
}

/// Whether `v` can be a page of at most `limit` rows after the first `offset`
/// of `t`: as many rows as that page holds, all from `t`, none twice. The
/// store guarantees no order, so which rows they are is left open.
pub open spec fn is_page<R: Record>(t: Seq<R>, limit: int, offset: int, v: Seq<R>) -> bool {
    &&& v.len() == page_len(t.len() as int, limit, offset)
    &&& forall|i: int| 0 <= i < v.len() ==> t.contains(#[trigger] v[i])
    &&& keys_unique(v)
}

/// Whether the reply hands back exactly the rows `s`.
pub open spec fn hands_back<R>(reply: Reply<R>, s: Seq<R>) -> bool {
    reply matches Reply::Rows(v) && v@ == s
}

/// How a store that holds the rows `before`, and meets no fault, runs `s`:
/// it then holds `after` and answers `reply`. An insert of rows that refer
/// to other tables may be refused as a conflict, and so may the delete of a
/// row that other tables may refer to: this table alone cannot tell.
pub open spec fn serves<R: Record>(before: Seq<R>, s: Statement<R>, after: Seq<R>, reply: Reply<R>) -> bool {
    match s {
        Statement::Insert(rows) => if can_insert(before, rows@) {
            ||| after == before + rows@ && hands_back(reply, rows@)
            ||| (exists|i: int| 0 <= i < rows@.len() && (#[trigger] rows@[i]).refers_to_others()) && after
                == before && reply is Conflict
        } else {
            after == before && reply is Conflict
        },
        Statement::Page { limit, offset } => after == before && if limit >= 0 && offset >= 0 {
            reply matches Reply::Rows(v) && is_page(before, limit as int, offset as int, v@)
        } else {
            reply is Failed
        },
        Statement::Count => after == before && reply == Reply::<R>::Count(before.len() as i64),
        Statement::Find(id) => after == before && if has_key(before, id.value) {
            hands_back(reply, seq![before[position(before, id.value)]])
        } else {
            reply is Missing
        },
        Statement::Delete(id) => if has_key(before, id.value) {
            ||| after == before.remove(position(before, id.value)) && reply == Reply::<R>::Affected(1)
            ||| R::referenced_by_others() && after == before && reply is Conflict
        } else {
            after == before && reply == Reply::<R>::Affected(0)
        },
        Statement::DeleteAll => after == Seq::<R>::empty() && hands_back(reply, before),
        Statement::Update(incoming) => if has_key(before, incoming.key()) {
            let i = position(before, incoming.key());
            let row = before[i].updated_by(incoming);
            after == before.update(i, row) && hands_back(reply, seq![row])
        } else {
            after == before && reply is Missing
        },
    }
}

/// What a removal by id came to.
#[derive(Clone, Copy, PartialEq, Eq, Structural, Debug)]
pub enum DeleteOutcome {
    /// Exactly one row was removed.
    Deleted,
    /// No row had the id.
    NotFound,
    /// The store failed, or reported something a removal by id cannot do.
    StoreError,
}

impl DeleteOutcome {
    /// Whether a row was removed.
    pub fn is_deleted(&self) -> (r: bool)
        ensures
            r == (*self == DeleteOutcome::Deleted),
    {
        match self {
            DeleteOutcome::Deleted => true,
            _ => false,
        }
    }
}

/// The result of a single-row insert, read from the store's reply.
pub open spec fn insert_result<R>(reply: Reply<R>) -> Result<R, Error> {
    match reply {
        Reply::Rows(v) => if v@.len() == 1 { Ok(v@[0]) } else { Err(Error::DBError) },
        Reply::Conflict => Err(Error::DuplicationError),
        _ => Err(Error::DBError),
    }
}

/// The result of a bulk insert of `sent` rows, read from the store's reply.
pub open spec fn bulk_insert_result<R>(sent: nat, reply: Reply<R>) -> Result<Seq<R>, Error> {
    match reply {
        Reply::Rows(v) => if v@.len() == sent { Ok(v@) } else { Err(Error::DBError) },
        Reply::Conflict => Err(Error::DuplicationError),
        _ => Err(Error::DBError),
    }
}

/// The result of reading a page of at most `limit` rows, read from the store's reply.
pub open spec fn page_result<R>(limit: int, reply: Reply<R>) -> Result<Seq<R>, Error> {
    match reply {
        Reply::Rows(v) => if v@.len() <= limit { Ok(v@) } else { Err(Error::DBError) },
        _ => Err(Error::DBError),
    }
}

/// The result of counting, read from the store's reply.
pub open spec fn count_result<R>(reply: Reply<R>) -> Result<i64, Error> {
    match reply {
        Reply::Count(n) => if n >= 0 { Ok(n) } else { Err(Error::DBError) },
        _ => Err(Error::DBError),
    }
}

/// The result of reading or updating one row by id, read from the store's reply.
pub open spec fn row_result<R>(reply: Reply<R>) -> Result<R, Error> {
    match reply {
        Reply::Rows(v) => if v@.len() == 1 { Ok(v@[0]) } else { Err(Error::DBError) },
        Reply::Missing => Err(Error::NotFound),
        _ => Err(Error::DBError),
    }
}

/// The result of a statement that returns any number of rows, read from the store's reply.
pub open spec fn rows_result<R>(reply: Reply<R>) -> Result<Seq<R>, Error> {
    match reply {
        Reply::Rows(v) => Ok(v@),
        _ => Err(Error::DBError),
    }
}

/// The outcome of a removal by id, read from the store's reply.
pub open spec fn delete_outcome<R>(reply: Reply<R>) -> DeleteOutcome {
    match reply {
        Reply::Affected(n) => if n == 1 {
            DeleteOutcome::Deleted
        } else if n == 0 {
            DeleteOutcome::NotFound
        } else {
            DeleteOutcome::StoreError
        },
        Reply::Missing => DeleteOutcome::NotFound,
        _ => DeleteOutcome::StoreError,
    }
}

/// Views a result holding a `Vec` as one holding its elements.
pub open spec fn seq_result<R>(r: Result<Vec<R>, Error>) -> Result<Seq<R>, Error> {
    match r {
        Ok(v) => Ok(v@),
        Err(e) => Err(e),
    }
}

/// Takes the only row of `v`, if it has exactly one.
fn only_row<R>(v: Vec<R>) -> (r: Option<R>)
    ensures
        v@.len() == 1 ==> r == Some(v@[0]),
        v@.len() != 1 ==> r is None,
{
    let mut v = v;
    if v.len() == 1 {
        v.pop()
    } else {
        None
    }
}

/// Reads the reply to the insert of one row: the stored row.
pub fn inserted_one<R>(reply: Reply<R>) -> (r: Result<R, Error>)
    ensures
        r == insert_result(reply),
{
    match reply {
        Reply::Rows(v) => match only_row(v) {
            Some(row) => Ok(row),
            None => Err(Error::DBError),
        },
        Reply::Conflict => Err(Error::DuplicationError),
        _ => Err(Error::DBError),
    }
}

/// Reads the reply to the bulk insert of `sent` rows: the stored rows, all of them.
pub fn inserted_all<R>(sent: usize, reply: Reply<R>) -> (r: Result<Vec<R>, Error>)
    ensures
        seq_result(r) == bulk_insert_result(sent as nat, reply),
{
    match reply {
        Reply::Rows(v) => if v.len() == sent {
            Ok(v)
        } else {
            Err(Error::DBError)
        },
        Reply::Conflict => Err(Error::DuplicationError),
        _ => Err(Error::DBError),
    }
}

/// Reads the reply to a page of at most `limit` rows; a longer answer is a store fault.
pub fn listed<R>(limit: i64, reply: Reply<R>) -> (r: Result<Vec<R>, Error>)
    ensures
        seq_result(r) == page_result(limit as int, reply),
        r matches Ok(v) ==> v@.len() <= limit,
{
    match reply {
        Reply::Rows(v) => if limit >= 0 && v.len() as u64 <= limit as u64 {
            Ok(v)
        } else {
            Err(Error::DBError)
        },
        _ => Err(Error::DBError),
    }
}

/// Reads the reply to a count.
pub fn counted<R>(reply: Reply<R>) -> (r: Result<i64, Error>)
    ensures
        r == count_result(reply),
{
    match reply {
        Reply::Count(n) => if n >= 0 {
            Ok(n)
        } else {
            Err(Error::DBError)
        },
        _ => Err(Error::DBError),
    }
}

/// Reads the reply to a lookup or an update of one row by id.
pub fn found<R>(reply: Reply<R>) -> (r: Result<R, Error>)
    ensures
        r == row_result(reply),
{
    match reply {
        Reply::Rows(v) => match only_row(v) {
            Some(row) => Ok(row),
            None => Err(Error::DBError),
        },
        Reply::Missing => Err(Error::NotFound),
        _ => Err(Error::DBError),
    }
}

/// Reads the reply to a statement that returns any number of rows.
pub fn rows<R>(reply: Reply<R>) -> (r: Result<Vec<R>, Error>)
    ensures
        seq_result(r) == rows_result(reply),
{
    match reply {
        Reply::Rows(v) => Ok(v),
        _ => Err(Error::DBError),
    }
}

/// Reads the reply to a removal by id.
pub fn deleted<R>(reply: Reply<R>) -> (r: DeleteOutcome)
    ensures
        r == delete_outcome(reply),
{
    match reply {
        Reply::Affected(n) => if n == 1 {
            DeleteOutcome::Deleted
        } else if n == 0 {
            DeleteOutcome::NotFound
        } else {
            DeleteOutcome::StoreError
        },
        Reply::Missing => DeleteOutcome::NotFound,
        _ => DeleteOutcome::StoreError,
    }
}

} // verus!
