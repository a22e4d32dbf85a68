use vstd::prelude::*;

use crate::dto::PaginationDTO;
use crate::engine::page_statement;
use crate::engine::page_statement_of;
use crate::error::Error;
use crate::ids::{is_v4, Id};
use crate::model::{NewTeam, Team};
use crate::store::{inserted_rows, Record, Statement};

verus! {

impl Record for Team {
    open spec fn key(&self) -> u128 {
        self.id.value
    }

    /// An update sets the name and the description.
    open spec fn updated_by(&self, incoming: Self) -> Self {
        Team { id: self.id, name: incoming.name, description: incoming.description }
    }

    open spec fn refers_to_others(&self) -> bool {
        false
    }

    /// Members refer to their team.
    open spec fn referenced_by_others() -> bool {
        true
    }

    proof fn update_keeps_key(&self, incoming: Self) {
    }
}

/// Whether `row` is the team made from `new`: its name and description under
/// a version 4 id.
pub open spec fn team_from(new: NewTeam, row: Team) -> bool {
    &&& row.name == new.name
    &&& row.description == new.description
    &&& is_v4(row.id.value)
}

impl NewTeam {
    /// The statement that stores this team under a fresh id.
    pub fn insert_team(&self) -> (r: Statement<Team>)
        ensures
            r is Insert,
            inserted_rows(r).len() == 1,
            team_from(*self, inserted_rows(r)[0]),
    {
        let mut rows: Vec<Team> = Vec::new();
        rows.push(
            Team { id: Id::new_v4(), name: self.name.clone(), description: self.description.clone() },
        );
        Statement::Insert(rows)
    }
}

/// The statement that stores every team of `teams`, each under a fresh
/// id, in one insert.
pub fn new_teams(teams: &Vec<NewTeam>) -> (r: Statement<Team>)
    ensures
        r is Insert,
        inserted_rows(r).len() == teams@.len(),
        forall|i: int| 0 <= i < teams@.len() ==> team_from(teams@[i], #[trigger] inserted_rows(r)[i]),
{
    let mut rows: Vec<Team> = Vec::new();
    let mut i: usize = 0;
    while i < teams.len()
        invariant
            i <= teams@.len(),
            rows@.len() == i,
            forall|j: int| 0 <= j < i ==> team_from(teams@[j], #[trigger] rows@[j]),
        decreases teams@.len() - i,
    {
        let new = &teams[i];
        rows.push(Team { id: Id::new_v4(), name: new.name.clone(), description: new.description.clone() });
        i = i + 1;
    }
    Statement::Insert(rows)
}

/// The statement that stores all the teams at once.
pub fn insert_bulk_team(other_teams: Vec<Team>) -> (r: Statement<Team>)
    ensures
        r == Statement::Insert(other_teams),
{
    Statement::Insert(other_teams)
}

/// The statement for a page of teams.
pub fn list_all_teams(pagination_dto: &PaginationDTO) -> (r: Result<Statement<Team>, Error>)
    ensures
        r == page_statement_of::<Team>(*pagination_dto),
{
    page_statement(pagination_dto)
}

/// The statement that counts the teams.
pub fn count_teams() -> (r: Statement<Team>)
    ensures
        r == Statement::<Team>::Count,
{
    Statement::Count
}

/// The statement that removes the team with this id.
pub fn delete_team_by_id(other_team_id: Id) -> (r: Statement<Team>)
    ensures
        r == Statement::<Team>::Delete(other_team_id),
{
    Statement::Delete(other_team_id)
}

/// The statement that removes every team and hands the removed rows back.
pub fn delete_all_teams() -> (r: Statement<Team>)
    ensures
        r == Statement::<Team>::DeleteAll,
{
    Statement::DeleteAll
}

/// The statement that reads the team with this id.
pub fn find_team_by_id(other_team_id: Id) -> (r: Statement<Team>)
    ensures
        r == Statement::<Team>::Find(other_team_id),
{
    Statement::Find(other_team_id)
}

/// The statement that sets the name and the description of the team with
/// `incoming_team`'s id to those of `incoming_team`.
pub fn update_auth_user(incoming_team: &Team) -> (r: Statement<Team>)
    ensures
        r matches Statement::Update(t) && t == *incoming_team,
{
    Statement::Update(
        Team {
            id: incoming_team.id,
            name: incoming_team.name.clone(),
            description: incoming_team.description.clone(),
        },
    )
}

} // verus!
