use vstd::prelude::*;

use crate::model::{AuthUser, Member};
use crate::store::{bulk_insert_result, inserted_all, Reply, Statement};

verus! {

/// Where the removal of every auth user and every member stands.
///
/// The two deletes are separate statements, not one transaction. When the
/// members cannot be deleted, the auth users deleted just before are
/// inserted again, with their ids, emails and passwords. This is not safe
/// against concurrent writers.
#[derive(Debug)]
pub enum Cleanup {
    /// Waiting for the store to delete every auth user.
    DeletingAuthUsers,
    /// The auth users held here are deleted; waiting for the store to delete every member.
    DeletingMembers(Vec<AuthUser>),
    /// Deleting the members failed; waiting for the store to insert this many auth users again.
    Restoring(usize),
    /// Nothing is left to do.
    Finished(CleanupOutcome),
}

/// How the removal ended.
#[derive(Clone, Copy, PartialEq, Eq, Structural, Debug)]
pub enum CleanupOutcome {
    /// Every auth user and every member is gone.
    Completed,
    /// Deleting the auth users failed; nothing was changed.
    NothingDeleted,
    /// Deleting the members failed; the deleted auth users are back.
    Restored,
    /// Deleting the members failed, and so did inserting the deleted auth users again.
    RestoreFailed,
}

/// What the store answered to the statement last handed out.
#[derive(Debug)]
pub enum CleanupEvent {
    /// The answer to a statement on the auth user table.
    AuthUsers(Reply<AuthUser>),
    /// The answer to a statement on the member table.
    Members(Reply<Member>),
}

/// What to do next.
#[derive(Debug)]
pub enum CleanupAction {
    /// Run this statement and hand its answer back as [`CleanupEvent::AuthUsers`].
    DeleteAuthUsers(Statement<AuthUser>),
    /// Run this statement and hand its answer back as [`CleanupEvent::Members`].
    DeleteMembers(Statement<Member>),
    /// Run this statement and hand its answer back as [`CleanupEvent::AuthUsers`].
    Restore(Statement<AuthUser>),
    /// Report the outcome; nothing is left to run.
    Finish(CleanupOutcome),
}

/// The step the removal takes on `event` in `state`. An answer of the
/// other table, or anything but the rows, counts as a failure of the
/// statement awaited.
pub open spec fn cleanup_next(state: Cleanup, event: CleanupEvent) -> (Cleanup, CleanupAction) {
    match state {
        Cleanup::DeletingAuthUsers => match event {
            CleanupEvent::AuthUsers(Reply::Rows(deleted)) => (
                Cleanup::DeletingMembers(deleted),
                CleanupAction::DeleteMembers(Statement::DeleteAll),
            ),
            _ => (
                Cleanup::Finished(CleanupOutcome::NothingDeleted),
                CleanupAction::Finish(CleanupOutcome::NothingDeleted),
            ),
        },
        Cleanup::DeletingMembers(deleted) => match event {
            CleanupEvent::Members(Reply::Rows(_)) => (
                Cleanup::Finished(CleanupOutcome::Completed),
                CleanupAction::Finish(CleanupOutcome::Completed),
            ),
            _ => (
                Cleanup::Restoring(deleted@.len() as usize),
                CleanupAction::Restore(Statement::Insert(deleted)),
            ),
        },
        Cleanup::Restoring(n) => {
            let outcome = match event {
                CleanupEvent::AuthUsers(reply) => if bulk_insert_result(n as nat, reply) is Ok {
                    CleanupOutcome::Restored
                } else {
                    CleanupOutcome::RestoreFailed
                },
                _ => CleanupOutcome::RestoreFailed,
            };
            (Cleanup::Finished(outcome), CleanupAction::Finish(outcome))
        },
        Cleanup::Finished(outcome) => (Cleanup::Finished(outcome), CleanupAction::Finish(outcome)),
    }
}

/// Starts removing every auth user and every member: the first statement
/// deletes the auth users.
pub fn delete_all_auth_users_and_members() -> (r: (Cleanup, CleanupAction))
    ensures
        r.0 is DeletingAuthUsers,
        r.1 == CleanupAction::DeleteAuthUsers(Statement::DeleteAll),
{
    (Cleanup::DeletingAuthUsers, CleanupAction::DeleteAuthUsers(Statement::DeleteAll))
}

impl Cleanup {
    /// Moves on by the store's answer to the last statement handed out.
    pub fn step(self, event: CleanupEvent) -> (r: (Cleanup, CleanupAction))
        ensures
            r == cleanup_next(self, event),
    {
        match self {
            Cleanup::DeletingAuthUsers => match event {
                CleanupEvent::AuthUsers(Reply::Rows(deleted)) => (
                    Cleanup::DeletingMembers(deleted),
                    CleanupAction::DeleteMembers(Statement::DeleteAll),
                ),
                _ => (
                    Cleanup::Finished(CleanupOutcome::NothingDeleted),
                    CleanupAction::Finish(CleanupOutcome::NothingDeleted),
                ),
            },
            Cleanup::DeletingMembers(deleted) => match event {
                CleanupEvent::Members(Reply::Rows(_)) => (
                    Cleanup::Finished(CleanupOutcome::Completed),
                    CleanupAction::Finish(CleanupOutcome::Completed),
                ),
                _ => (Cleanup::Restoring(deleted.len()), CleanupAction::Restore(Statement::Insert(deleted))),
            },
            Cleanup::Restoring(n) => {
                let outcome = match event {
                    CleanupEvent::AuthUsers(reply) => if inserted_all(n, reply).is_ok() {
                        CleanupOutcome::Restored
                    } else {
                        CleanupOutcome::RestoreFailed
                    },
                    _ => CleanupOutcome::RestoreFailed,
                };
                (Cleanup::Finished(outcome), CleanupAction::Finish(outcome))
            },
            Cleanup::Finished(outcome) => (Cleanup::Finished(outcome), CleanupAction::Finish(outcome)),
        }
    }
}

} // verus!
