use vstd::prelude::*;

use crate::clock::{current_timestamp, Timestamp};
use crate::dto::PaginationDTO;
use crate::engine::page_statement;
use crate::engine::page_statement_of;
use crate::error::Error;
use crate::ids::{is_v4, parsed_uuid, Id};
use crate::model::{Member, Name, NewMember};
use crate::store::{inserted_rows, Record, Reply, Statement};

verus! {

impl Record for Member {
    open spec fn key(&self) -> u128 {
        self.id.value
    }

    /// An update sets the name, the identity number, the role, the end of the
    /// membership and the modification date; the id, the team, the user and
    /// the assignment time stay.
    open spec fn updated_by(&self, incoming: Self) -> Self {
        Member {
            id: self.id,
            team_id: self.team_id,
            user_id: self.user_id,
            name: incoming.name,
            identity_num: incoming.identity_num,
            role: incoming.role,
            assigned_at: self.assigned_at,
            expired_at: incoming.expired_at,
            modification_date: incoming.modification_date,
        }
    }

    /// A member refers to its team and to its user.
    open spec fn refers_to_others(&self) -> bool {
        true
    }

    open spec fn referenced_by_others() -> bool {
        false
    }

    proof fn update_keeps_key(&self, incoming: Self) {
    }
}

/// Whether `row` is the member made from `new`, assigned at `now`, under a
/// version 4 id and not yet modified.
pub open spec fn member_from(new: NewMember, now: Timestamp, row: Member) -> bool {
    &&& row.team_id == new.team_id
    &&& row.user_id == new.user_id
    &&& row.name == new.name
    &&& row.identity_num == new.identity_num
    &&& row.role == new.role
    &&& row.assigned_at == now
    &&& row.expired_at == new.expired_at
    &&& row.modification_date is None
    &&& is_v4(row.id.value)
}

/// The member made from `new`, assigned at `now`, under a fresh id.
fn member_row(new: &NewMember, now: Timestamp) -> (r: Member)
    ensures
        member_from(*new, now, r),
{
    Member {
        id: Id::new_v4(),
        team_id: new.team_id,
        user_id: new.user_id,
        name: new.name.clone(),
        identity_num: new.identity_num.clone(),
        role: new.role.clone(),
        assigned_at: now,
        expired_at: new.expired_at,
        modification_date: None,
    }
}

impl NewMember {
    /// The statement that stores this membership under a fresh id, assigned now.
    pub fn insert_member(&self) -> (r: Statement<Member>)
        ensures
            r is Insert,
            inserted_rows(r).len() == 1,
            member_from(*self, inserted_rows(r)[0].assigned_at, inserted_rows(r)[0]),
    {
        let now = current_timestamp();
        let mut rows: Vec<Member> = Vec::new();
        rows.push(member_row(self, now));
        Statement::Insert(rows)
    }
}

/// The statement that stores every membership of `members`, each under
/// a fresh id, in one insert. All are assigned at the same moment, read once.
pub fn new_members(members: &Vec<NewMember>) -> (r: Statement<Member>)
    ensures
        r is Insert,
        inserted_rows(r).len() == members@.len(),
        forall|i: int|
            0 <= i < members@.len() ==> member_from(
                members@[i],
                inserted_rows(r)[0].assigned_at,
                #[trigger] inserted_rows(r)[i],
            ),
{
    let now = current_timestamp();
    let mut rows: Vec<Member> = Vec::new();
    let mut i: usize = 0;
    while i < members.len()
        invariant
            i <= members@.len(),
            rows@.len() == i,
            forall|j: int| 0 <= j < i ==> member_from(members@[j], now, #[trigger] rows@[j]),
        decreases members@.len() - i,
    {
        rows.push(member_row(&members[i], now));
        i = i + 1;
    }
    Statement::Insert(rows)
}

/// The statement that stores all the members at once.
pub fn insert_bulk_members(other_members: Vec<Member>) -> (r: Statement<Member>)
    ensures
        r == Statement::Insert(other_members),
{
    Statement::Insert(other_members)
}

/// The statement for a page of members.
pub fn list_all_members(pagination_dto: &PaginationDTO) -> (r: Result<Statement<Member>, Error>)
    ensures
        r == page_statement_of::<Member>(*pagination_dto),
{
    page_statement(pagination_dto)
}

/// The statement that counts the members.
pub fn count_members() -> (r: Statement<Member>)
    ensures
        r == Statement::<Member>::Count,
{
    Statement::Count
}

/// The statement that removes the member with this id.
pub fn delete_member_by_id(other_member_id: Id) -> (r: Statement<Member>)
    ensures
        r == Statement::<Member>::Delete(other_member_id),
{
    Statement::Delete(other_member_id)
}

/// The statement that removes every member and hands the removed rows back.
pub fn delete_all_members() -> (r: Statement<Member>)
    ensures
        r == Statement::<Member>::DeleteAll,
{
    Statement::DeleteAll
}

/// The statement that reads the member with this id.
pub fn find_member_by_id(other_member_id: Id) -> (r: Statement<Member>)
    ensures
        r == Statement::<Member>::Find(other_member_id),
{
    Statement::Find(other_member_id)
}

/// Whether `row` carries `incoming`'s fields with the modification date set
/// to `now`.
pub open spec fn modified_at(incoming: Member, now: Timestamp, row: Member) -> bool {
    row == Member { modification_date: Some(now), ..incoming }
}

/// The statement that updates the member with `incoming_member`'s id to its
/// name, identity number, role and end, marking it modified at `now`.
pub fn update_member_at(incoming_member: &Member, now: Timestamp) -> (r: Statement<Member>)
    ensures
        r matches Statement::Update(m) && modified_at(*incoming_member, now, m),
{
    Statement::Update(
        Member {
            id: incoming_member.id,
            team_id: incoming_member.team_id,
            user_id: incoming_member.user_id,
            name: incoming_member.name.clone(),
            identity_num: incoming_member.identity_num.clone(),
            role: incoming_member.role.clone(),
            assigned_at: incoming_member.assigned_at,
            expired_at: incoming_member.expired_at,
            modification_date: Some(now),
        },
    )
}

/// The statement that updates the member with `incoming_member`'s id to its
/// name, identity number, role and end, marking it modified now.
pub fn update_member(incoming_member: &Member) -> (r: Statement<Member>)
    ensures
        r matches Statement::Update(m) && m.modification_date matches Some(now) && modified_at(
            *incoming_member,
            now,
            m,
        ),
{
    update_member_at(incoming_member, current_timestamp())
}

/// A read of the member table that is not by id. Every value travels as a
/// statement parameter, never as SQL text.
#[derive(Debug)]
pub enum MemberQuery {
    /// The members whose name is exactly this one, in table order.
    ByName(String),
    /// The names of the members of this team, in table order, answered as
    /// [`Name`](crate::model::Name)s.
    NamesOfTeam(Id),
}

/// How a store that holds the members `t`, and meets no fault, answers the
/// read of the members named `name`: exactly the members whose name equals
/// it character for character (no pattern), in no guaranteed order.
pub open spec fn serves_by_name(t: Seq<Member>, name: Seq<char>, reply: Reply<Member>) -> bool {
    reply matches Reply::Rows(v) && v@.to_multiset() == t.filter(|m: Member| m.name@ == name).to_multiset()
}

/// How a store that holds the members `t`, and meets no fault, answers the
/// read of the names of `team`'s members: the names of exactly the members
/// with that team id, in no guaranteed order.
pub open spec fn serves_names_of_team(t: Seq<Member>, team: Id, reply: Reply<Name>) -> bool {
    reply matches Reply::Rows(v) && v@.map_values(|n: Name| n.name@).to_multiset() == t.filter(
        |m: Member| m.team_id == team,
    ).map_values(|m: Member| m.name@).to_multiset()
}

/// The read of the members whose name is exactly `other_name`.
pub fn filter_members_by_name(other_name: &String) -> (r: MemberQuery)
    ensures
        r matches MemberQuery::ByName(n) && n == *other_name,
{
    MemberQuery::ByName(other_name.clone())
}

/// The read of the names of the members of a team.
pub fn get_all_member_names_by_team_id(other_team_id: Id) -> (r: MemberQuery)
    ensures
        r matches MemberQuery::NamesOfTeam(t) && t == other_team_id,
{
    MemberQuery::NamesOfTeam(other_team_id)
}

/// The read of the names of the members of the team written as `team_id`.
/// Text that is no UUID is refused as a malformed id before reaching the
/// store; a quote never gets through.
pub fn member_names_by_team_text(team_id: &str) -> (r: Result<MemberQuery, Error>)
    ensures
        r is Err <==> parsed_uuid(team_id@) is None,
        r matches Err(e) ==> e == Error::MalformedId,
        r matches Ok(q) ==> q matches MemberQuery::NamesOfTeam(t) && parsed_uuid(team_id@) == Some(t.value),
        team_id@.contains('\'') ==> r == Err::<MemberQuery, Error>(Error::MalformedId),
{
    match Id::parse(team_id) {
        Some(id) => Ok(get_all_member_names_by_team_id(id)),
        None => Err(Error::MalformedId),
    }
}

} // verus!
