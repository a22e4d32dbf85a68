use vstd::prelude::*;

use crate::cleanup::{cleanup_next, Cleanup, CleanupAction, CleanupEvent, CleanupOutcome};
use crate::clock::Timestamp;
use crate::dto::PaginationDTO;
use crate::engine::auth_user::auth_user_from;
use crate::engine::member::{member_from, modified_at, serves_by_name, serves_names_of_team, MemberQuery};
use crate::engine::page_statement_of;
use crate::engine::team::team_from;
use crate::engine::user::user_from;
use crate::error::Error;
use crate::ids::Id;
use crate::model::{AuthUser, Member, Name, NewMember, NewTeam, NewUser, Team, User};
use crate::store::{
    bulk_insert_result, hands_back, can_insert, count_result, delete_outcome, has_key, insert_result, inserted_rows,
    is_page, keys_unique, page_result, position, row_result, rows_result, serves, DeleteOutcome, Record, Reply, Statement,
};

verus! {

/// In a table whose keys are unique, the row with key `k` stands where `position` says.
proof fn lemma_position<R: Record>(t: Seq<R>, i: int)
    requires
        keys_unique(t),
        0 <= i < t.len(),
    ensures
        has_key(t, t[i].key()),
        position(t, t[i].key()) == i,
{
    let k = t[i].key();
    assert(has_key(t, k));
    let p = position(t, k);
    assert(0 <= p < t.len() && t[p].key() == k);
}

/// Appending rows that can go in together keeps the keys unique.
proof fn lemma_append_unique<R: Record>(t: Seq<R>, rows: Seq<R>)
    requires
        keys_unique(t),
        can_insert(t, rows),
    ensures
        keys_unique(t + rows),
{
    let u = t + rows;
    assert forall|i: int, j: int| 0 <= i < u.len() && 0 <= j < u.len() && i != j implies #[trigger] u[i].key()
        != #[trigger] u[j].key() by {
        if i >= t.len() && j < t.len() {
            assert(!has_key(t, rows[i - t.len()].key()));
            assert(u[i] == rows[i - t.len()]);
        } else if i < t.len() && j >= t.len() {
            assert(!has_key(t, rows[j - t.len()].key()));
            assert(u[j] == rows[j - t.len()]);
        } else if i >= t.len() && j >= t.len() {
            assert(u[i] == rows[i - t.len()]);
            assert(u[j] == rows[j - t.len()]);
        }
    }
}

/// A store with unique keys that gets the insert of one row whose key is
/// free hands that row back, unless the row refers to other tables and the
/// store refuses it as a duplication; once stored, a lookup of its key finds
/// exactly it.
pub proof fn insert_then_find<R: Record>(
    t: Seq<R>,
    s: Statement<R>,
    t1: Seq<R>,
    reply1: Reply<R>,
    t2: Seq<R>,
    reply2: Reply<R>,
)
    requires
        keys_unique(t),
        s is Insert,
        inserted_rows(s).len() == 1,
        !has_key(t, inserted_rows(s)[0].key()),
        serves(t, s, t1, reply1),
        serves(t1, Statement::Find(Id { value: inserted_rows(s)[0].key() }), t2, reply2),
    ensures
        insert_result(reply1) == Ok::<R, Error>(inserted_rows(s)[0]) || (inserted_rows(s)[0].refers_to_others()
            && insert_result(reply1) == Err::<R, Error>(Error::DuplicationError) && t1 == t),
        insert_result(reply1) is Ok ==> row_result(reply2) == Ok::<R, Error>(inserted_rows(s)[0]),
        keys_unique(t1),
        t2 == t1,
{
    let rows = inserted_rows(s);
    assert(can_insert(t, rows));
    lemma_append_unique(t, rows);
    if t1 == t + rows && hands_back(reply1, rows) {
        assert(t1[t.len() as int] == rows[0]);
        lemma_position(t1, t.len() as int);
    } else {
        assert(rows[0].refers_to_others());
    }
}

/// Storing valid credentials and then reading the auth user by its new id
/// gives back the stored row: the email sent, and the stored password hash,
/// when the id drawn is free.
pub proof fn insert_then_find_auth_user(
    t: Seq<AuthUser>,
    new: NewUser,
    s: Statement<AuthUser>,
    t1: Seq<AuthUser>,
    reply1: Reply<AuthUser>,
    t2: Seq<AuthUser>,
    reply2: Reply<AuthUser>,
)
    requires
        keys_unique(t),
        s is Insert,
        inserted_rows(s).len() == 1,
        auth_user_from(new, inserted_rows(s)[0]),
        !has_key(t, inserted_rows(s)[0].key()),
        serves(t, s, t1, reply1),
        serves(t1, Statement::Find(inserted_rows(s)[0].id), t2, reply2),
    ensures
        row_result(reply2) matches Ok(found) && found == inserted_rows(s)[0] && auth_user_from(new, found),
{
    insert_then_find(t, s, t1, reply1, t2, reply2);
}

/// Storing a user with a valid email and then reading it by its new id
/// gives back the email and the name sent, when the id drawn is free.
pub proof fn insert_then_find_user(
    t: Seq<User>,
    new: NewUser,
    s: Statement<User>,
    t1: Seq<User>,
    reply1: Reply<User>,
    t2: Seq<User>,
    reply2: Reply<User>,
)
    requires
        keys_unique(t),
        s is Insert,
        inserted_rows(s).len() == 1,
        user_from(new, inserted_rows(s)[0]),
        !has_key(t, inserted_rows(s)[0].key()),
        serves(t, s, t1, reply1),
        serves(t1, Statement::Find(inserted_rows(s)[0].id), t2, reply2),
    ensures
        row_result(reply2) matches Ok(found) && found == inserted_rows(s)[0] && user_from(new, found),
{
    insert_then_find(t, s, t1, reply1, t2, reply2);
}

/// Storing a team and then reading it by its new id gives back the name
/// and the description sent, when the id drawn is free.
pub proof fn insert_then_find_team(
    t: Seq<Team>,
    new: NewTeam,
    s: Statement<Team>,
    t1: Seq<Team>,
    reply1: Reply<Team>,
    t2: Seq<Team>,
    reply2: Reply<Team>,
)
    requires
        keys_unique(t),
        s is Insert,
        inserted_rows(s).len() == 1,
        team_from(new, inserted_rows(s)[0]),
        !has_key(t, inserted_rows(s)[0].key()),
        serves(t, s, t1, reply1),
        serves(t1, Statement::Find(inserted_rows(s)[0].id), t2, reply2),
    ensures
        row_result(reply2) matches Ok(found) && found == inserted_rows(s)[0] && team_from(new, found),
{
    insert_then_find(t, s, t1, reply1, t2, reply2);
}

/// Storing a membership and then reading it by its new id gives back every
/// field sent, unmodified, when the id drawn is free; the store may refuse
/// the membership as a duplication when its team or its user does not exist.
pub proof fn insert_then_find_member(
    t: Seq<Member>,
    new: NewMember,
    s: Statement<Member>,
    t1: Seq<Member>,
    reply1: Reply<Member>,
    t2: Seq<Member>,
    reply2: Reply<Member>,
)
    requires
        keys_unique(t),
        s is Insert,
        inserted_rows(s).len() == 1,
        member_from(new, inserted_rows(s)[0].assigned_at, inserted_rows(s)[0]),
        !has_key(t, inserted_rows(s)[0].key()),
        serves(t, s, t1, reply1),
        serves(t1, Statement::Find(inserted_rows(s)[0].id), t2, reply2),
    ensures
        insert_result(reply1) is Ok ==> (row_result(reply2) matches Ok(found) && found == inserted_rows(s)[0]
            && member_from(new, found.assigned_at, found)),
        insert_result(reply1) is Err ==> insert_result(reply1) == Err::<Member, Error>(Error::DuplicationError),
{
    insert_then_find(t, s, t1, reply1, t2, reply2);
}

/// A bulk insert of N rows either stores all N, whose keys are then
/// distinct, and the row count grows by exactly N; or it fails as a
/// duplication and stores none. Rows that refer to no other table and
/// whose keys are distinct and free are always stored.
pub proof fn bulk_insert_counts<R: Record>(
    t: Seq<R>,
    s: Statement<R>,
    t1: Seq<R>,
    reply: Reply<R>,
    t2: Seq<R>,
    count: Reply<R>,
)
    requires
        keys_unique(t),
        s is Insert,
        t.len() + inserted_rows(s).len() <= i64::MAX,
        serves(t, s, t1, reply),
        serves(t1, Statement::Count, t2, count),
    ensures
        bulk_insert_result(inserted_rows(s).len(), reply) matches Ok(v) ==> v == inserted_rows(s) && keys_unique(v)
            && count_result(count) == Ok::<i64, Error>((t.len() + inserted_rows(s).len()) as i64),
        bulk_insert_result(inserted_rows(s).len(), reply) is Err ==> bulk_insert_result(
            inserted_rows(s).len(),
            reply,
        ) == Err::<Seq<R>, Error>(Error::DuplicationError) && count_result(count) == Ok::<i64, Error>(
            t.len() as i64,
        ),
        can_insert(t, inserted_rows(s)) && (forall|i: int|
            0 <= i < inserted_rows(s).len() ==> !(#[trigger] inserted_rows(s)[i]).refers_to_others())
            ==> bulk_insert_result(inserted_rows(s).len(), reply) is Ok,
        keys_unique(t1),
{
    if can_insert(t, inserted_rows(s)) {
        lemma_append_unique(t, inserted_rows(s));
    }
}

/// A page never holds more than `page_size` rows, reading it changes
/// nothing, and the count that follows is the number of rows in the table.
pub proof fn page_then_count<R: Record>(
    t: Seq<R>,
    p: PaginationDTO,
    s: Statement<R>,
    t1: Seq<R>,
    reply: Reply<R>,
    t2: Seq<R>,
    count: Reply<R>,
)
    requires
        t.len() <= i64::MAX,
        page_statement_of::<R>(p) == Ok::<Statement<R>, Error>(s),
        serves(t, s, t1, reply),
        serves(t1, Statement::Count, t2, count),
    ensures
        page_result(p.page_size as int, reply) matches Ok(v) && v.len() <= p.page_size && is_page(
            t,
            p.page_size as int,
            p.offset as int,
            v,
        ),
        t1 == t,
        count_result(count) == Ok::<i64, Error>(t.len() as i64),
{
}

/// Removing a row just stored reports it deleted, and a lookup of its key
/// afterwards finds nothing. Where rows of other tables may refer to it, the
/// store may refuse instead: that is a store error and the row stays.
pub proof fn delete_after_insert<R: Record>(
    t: Seq<R>,
    s: Statement<R>,
    t1: Seq<R>,
    reply1: Reply<R>,
    t2: Seq<R>,
    reply2: Reply<R>,
    t3: Seq<R>,
    reply3: Reply<R>,
)
    requires
        keys_unique(t),
        s is Insert,
        inserted_rows(s).len() == 1,
        !has_key(t, inserted_rows(s)[0].key()),
        serves(t, s, t1, reply1),
        insert_result(reply1) is Ok,
        serves(t1, Statement::Delete(Id { value: inserted_rows(s)[0].key() }), t2, reply2),
        serves(t2, Statement::Find(Id { value: inserted_rows(s)[0].key() }), t3, reply3),
    ensures
        !R::referenced_by_others() ==> delete_outcome(reply2) == DeleteOutcome::Deleted,
        delete_outcome(reply2) == DeleteOutcome::Deleted ==> row_result(reply3) == Err::<R, Error>(
            Error::NotFound,
        ),
        delete_outcome(reply2) != DeleteOutcome::Deleted ==> delete_outcome(reply2) == DeleteOutcome::StoreError
            && row_result(reply3) == Ok::<R, Error>(inserted_rows(s)[0]),
{
    let rows = inserted_rows(s);
    let k = rows[0].key();
    assert(can_insert(t, rows));
    lemma_append_unique(t, rows);
    assert(t1 == t + rows);
    assert(t1[t.len() as int] == rows[0]);
    lemma_position(t1, t.len() as int);
    if t2 == t1.remove(t.len() as int) && reply2 == Reply::<R>::Affected(1) {
        if has_key(t2, k) {
            let j = choose|j: int| 0 <= j < t2.len() && #[trigger] t2[j].key() == k;
            assert(t2[j] == t1[j]);
            assert(t1[j].key() != t1[t.len() as int].key());
        }
    }
}

/// Removing an id that no row has reports that nothing was found, and
/// changes nothing.
pub proof fn delete_missing<R: Record>(t: Seq<R>, id: Id, t1: Seq<R>, reply: Reply<R>)
    requires
        !has_key(t, id.value),
        serves(t, Statement::Delete(id), t1, reply),
    ensures
        delete_outcome(reply) == DeleteOutcome::NotFound,
        t1 == t,
{
}

/// Updating a member sets its name, identity number, role and end to those
/// sent and its modification date to the time read during the call; its
/// id, team, user and assignment time stay, and no other row changes.
pub proof fn update_member_fields(
    t: Seq<Member>,
    incoming: Member,
    now: Timestamp,
    s: Statement<Member>,
    t1: Seq<Member>,
    reply: Reply<Member>,
)
    requires
        keys_unique(t),
        has_key(t, incoming.id.value),
        s matches Statement::Update(m) && modified_at(incoming, now, m),
        serves(t, s, t1, reply),
    ensures
        ({
            let old_row = t[position(t, incoming.id.value)];
            row_result(reply) matches Ok(u) && u.id == old_row.id && u.team_id == old_row.team_id && u.user_id
                == old_row.user_id && u.assigned_at == old_row.assigned_at && u.name == incoming.name
                && u.identity_num == incoming.identity_num && u.role == incoming.role && u.expired_at
                == incoming.expired_at && u.modification_date == Some(now)
        }),
        t1.len() == t.len(),
        forall|j: int| 0 <= j < t.len() && j != position(t, incoming.id.value) ==> t1[j] == t[j],
        keys_unique(t1),
{
    let i = position(t, incoming.id.value);
    let m = s->Update_0;
    t[i].update_keeps_key(m);
    assert forall|a: int, b: int| 0 <= a < t1.len() && 0 <= b < t1.len() && a != b implies #[trigger] t1[a].key()
        != #[trigger] t1[b].key() by {
        assert(t1[a].key() == t[a].key());
        assert(t1[b].key() == t[b].key());
    }
}

/// When deleting the members fails after the auth users were deleted, the
/// removal inserts the deleted auth users again; against a store that meets
/// no fault there, the auth user table holds exactly its former rows, ids,
/// emails and passwords included, and the removal still ends in failure.
pub proof fn failed_member_delete_restores_auth_users(
    t: Seq<AuthUser>,
    t0: Seq<AuthUser>,
    deleted: Reply<AuthUser>,
    members: Reply<Member>,
    t1: Seq<AuthUser>,
    restored: Reply<AuthUser>,
)
    requires
        keys_unique(t),
        t.len() <= usize::MAX,
        serves(t, Statement::DeleteAll, t0, deleted),
        !(members is Rows),
        ({
            let first = cleanup_next(Cleanup::DeletingAuthUsers, CleanupEvent::AuthUsers(deleted));
            let second = cleanup_next(first.0, CleanupEvent::Members(members));
            second.1 matches CleanupAction::Restore(s) && serves(t0, s, t1, restored)
        }),
    ensures
        t1 == t,
        ({
            let first = cleanup_next(Cleanup::DeletingAuthUsers, CleanupEvent::AuthUsers(deleted));
            let second = cleanup_next(first.0, CleanupEvent::Members(members));
            cleanup_next(second.0, CleanupEvent::AuthUsers(restored)).1 == CleanupAction::Finish(
                CleanupOutcome::Restored,
            )
        }),
{
    let rows = deleted->Rows_0;
    assert(rows@ == t);
    assert(can_insert(t0, t));
    assert(t0 + t =~= t);
}

/// Filtering members by name answers only members of the store whose name
/// equals the text exactly, and every such member as often as the store
/// holds it.
pub proof fn filter_by_name_is_exact(t: Seq<Member>, q: MemberQuery, name: String, reply: Reply<Member>)
    requires
        q matches MemberQuery::ByName(n) && n == name,
        serves_by_name(t, name@, reply),
    ensures
        rows_result(reply) matches Ok(v) && v.to_multiset() == t.filter(|m: Member| m.name@ == name@).to_multiset(),
        rows_result(reply) matches Ok(v) && forall|i: int|
            0 <= i < v.len() ==> (#[trigger] v[i]).name@ == name@ && t.contains(v[i]),
{
    broadcast use vstd::seq_lib::group_to_multiset_ensures;

    let pred = |m: Member| m.name@ == name@;
    let v = reply->Rows_0@;
    let f = t.filter(pred);
    assert forall|i: int| 0 <= i < v.len() implies (#[trigger] v[i]).name@ == name@ && t.contains(v[i]) by {
        assert(v.contains(v[i]));
        assert(v.to_multiset().count(v[i]) > 0);
        assert(f.contains(v[i]));
        let k = choose|k: int| 0 <= k < f.len() && f[k] == v[i];
        t.lemma_filter_pred(pred, k);
        t.lemma_filter_contains_rev(pred, v[i]);
    }
}

/// Whether some member of `t` belongs to `team` and has the name `name`.
pub open spec fn name_in_team(t: Seq<Member>, team: Id, name: Seq<char>) -> bool {
    exists|m: Member| #[trigger] t.contains(m) && m.team_id == team && m.name@ == name
}

/// The names read for a team are names of members of the store that belong
/// to that team: no other team's member shows up.
pub proof fn names_of_team_stay_in_team(t: Seq<Member>, team: Id, reply: Reply<Name>)
    requires
        serves_names_of_team(t, team, reply),
    ensures
        rows_result(reply) matches Ok(v) && forall|i: int|
            0 <= i < v.len() ==> name_in_team(t, team, (#[trigger] v[i]).name@),
{
    broadcast use vstd::seq_lib::group_to_multiset_ensures;

    let pred = |m: Member| m.team_id == team;
    let v = reply->Rows_0@;
    let vn = v.map_values(|n: Name| n.name@);
    let f = t.filter(pred);
    let fnm = f.map_values(|m: Member| m.name@);
    assert forall|i: int| 0 <= i < v.len() implies name_in_team(t, team, (#[trigger] v[i]).name@) by {
        assert(vn[i] == v[i].name@);
        assert(vn.contains(vn[i]));
        assert(vn.to_multiset().count(vn[i]) > 0);
        assert(fnm.contains(vn[i]));
        let k = choose|k: int| 0 <= k < fnm.len() && fnm[k] == vn[i];
        t.lemma_filter_pred(pred, k);
        assert(f.contains(f[k]));
        t.lemma_filter_contains_rev(pred, f[k]);
        assert(t.contains(f[k]) && f[k].team_id == team && f[k].name@ == v[i].name@);
    }
}

} // verus!
