use vstd::prelude::*;

use crate::clock::Timestamp;
use crate::ids::Id;

verus! {

/// Login credentials, kept apart from [`User`] so that a leak of the user
/// records does not expose them.
#[derive(Clone, Debug, PartialEq, Eq)]
pub struct AuthUser {
    pub id: Id,
    pub email: String,
    pub password: String,
}

/// A person known to the system.
#[derive(Clone, Debug, PartialEq, Eq)]
pub struct User {
    pub id: Id,
    pub email: String,
    pub name: String,
}

/// What a client sends to create a [`User`] or an [`AuthUser`].
#[derive(Clone, Debug, PartialEq, Eq, Default)]
pub struct NewUser {
    pub email: String,
    pub name: String,
    pub password: String,
}

/// A team.
#[derive(Clone, Debug, PartialEq, Eq)]
pub struct Team {
    pub id: Id,
    pub name: String,
    pub description: String,
}

/// What a client sends to create a [`Team`].
#[derive(Clone, Debug, PartialEq, Eq, Default)]
pub struct NewTeam {
    pub name: String,
    pub description: String,
}

/// A user's membership of a team, with a role and an optional end.
#[derive(Clone, Debug, PartialEq, Eq)]
pub struct Member {
    pub id: Id,
    pub team_id: Id,
    pub user_id: Id,
    pub name: String,
    pub identity_num: String,
    pub role: String,
    /// When the membership was created; never changed afterwards.
    pub assigned_at: Timestamp,
    pub expired_at: Option<Timestamp>,
    /// When the membership was last updated; `None` until the first update.
    pub modification_date: Option<Timestamp>,
}

/// What a client sends to create a [`Member`].
#[derive(Clone, Debug, PartialEq, Eq)]
pub struct NewMember {
    pub team_id: Id,
    pub user_id: Id,
    pub name: String,
    pub identity_num: String,
    pub role: String,
    pub expired_at: Option<Timestamp>,
}

/// A member's name, as the lookup of a team's member names returns it.
#[derive(Clone, Debug, PartialEq, Eq)]
pub struct Name {
    pub name: String,
}

} // verus!
