use argon2::{Argon2, PasswordVerifier};
use password_hash::PasswordHash;
use yugabyte::api::auth_user::{find_auth_user_by_id_api, insert_auth_user_api};
use yugabyte::api::member::insert_bulk_members_api;
use yugabyte::clock::{current_timestamp, Timestamp};
use yugabyte::dto::PaginationDTO;
use yugabyte::engine::auth_user::{
    auth_user_with_salt,
    count_auth_users, delete_auth_user_by_id, find_auth_user_by_id, insert_bulk_auth_users, list_all_auth_users,
    new_auth_users,
};
use yugabyte::engine::member::{count_members, find_member_by_id, new_members, update_member};
use yugabyte::engine::team::{
    count_teams, delete_team_by_id, find_team_by_id, list_all_teams, new_teams, update_auth_user,
};
use yugabyte::engine::user::{find_user_by_id, insert_bulk_users};
use yugabyte::error::Error;
use yugabyte::ids::Id;
use yugabyte::model::{AuthUser, Member, NewMember, NewTeam, NewUser, Team, User};
use yugabyte::store::{counted, deleted, found, inserted_all, inserted_one, listed, DeleteOutcome, Reply, Statement};

/// A store table kept in memory, answering statements as a database would.
fn run<R: Clone>(table: &mut Vec<R>, s: Statement<R>, key: fn(&R) -> Id, merge: fn(&R, R) -> R) -> Reply<R> {
    match s {
        Statement::Insert(rows) => {
            for (i, r) in rows.iter().enumerate() {
                if table.iter().any(|t| key(t) == key(r)) || rows[..i].iter().any(|o| key(o) == key(r)) {
                    return Reply::Conflict;
                }
            }
            table.extend(rows.iter().cloned());
            Reply::Rows(rows)
        }
        Statement::Page { limit, offset } => {
            if limit < 0 || offset < 0 {
                return Reply::Failed;
            }
            Reply::Rows(table.iter().skip(offset as usize).take(limit as usize).cloned().collect())
        }
        Statement::Count => Reply::Count(table.len() as i64),
        Statement::Find(id) => match table.iter().find(|t| key(t) == id) {
            Some(r) => Reply::Rows(vec![r.clone()]),
            None => Reply::Missing,
        },
        Statement::Delete(id) => {
            let before = table.len();
            table.retain(|t| key(t) != id);
            Reply::Affected((before - table.len()) as u64)
        }
        Statement::DeleteAll => Reply::Rows(table.drain(..).collect()),
        Statement::Update(incoming) => match table.iter().position(|t| key(t) == key(&incoming)) {
            Some(i) => {
                let row = merge(&table[i], incoming);
                table[i] = row.clone();
                Reply::Rows(vec![row])
            }
            None => Reply::Missing,
        },
    }
}

fn auth_key(r: &AuthUser) -> Id {
    r.id
}

fn keep_auth(old: &AuthUser, _incoming: AuthUser) -> AuthUser {
    old.clone()
}

fn user_key(r: &User) -> Id {
    r.id
}

fn keep_user(old: &User, _incoming: User) -> User {
    old.clone()
}

fn team_key(r: &Team) -> Id {
    r.id
}

fn merge_team(old: &Team, incoming: Team) -> Team {
    Team { id: old.id, name: incoming.name, description: incoming.description }
}

fn member_key(r: &Member) -> Id {
    r.id
}

fn merge_member(old: &Member, incoming: Member) -> Member {
    Member {
        id: old.id,
        team_id: old.team_id,
        user_id: old.user_id,
        name: incoming.name,
        identity_num: incoming.identity_num,
        role: incoming.role,
        assigned_at: old.assigned_at,
        expired_at: incoming.expired_at,
        modification_date: incoming.modification_date,
    }
}

fn is_v4(id: Id) -> bool {
    id.value & 0xF000_C000_0000_0000_0000u128 == 0x4000_8000_0000_0000_0000u128
}

fn hashes(password: &str, stored: &str) -> bool {
    let parsed = PasswordHash::new(stored).expect("a PHC string");
    Argon2::default().verify_password(password.as_bytes(), &parsed).is_ok()
}

fn new_user(email: &str, name: &str, password: &str) -> NewUser {
    NewUser { email: email.to_string(), name: name.to_string(), password: password.to_string() }
}

fn new_member(team: Id, user: Id, name: &str) -> NewMember {
    NewMember {
        team_id: team,
        user_id: user,
        name: name.to_string(),
        identity_num: format!("ID-{}", name),
        role: "developer".to_string(),
        expired_at: None,
    }
}

#[test]
fn insert_then_find_auth_user_returns_same_credentials() {
    let mut table: Vec<AuthUser> = Vec::new();
    let new = new_user("a@b.com", "", "password123");
    let statement = new.add_auth_user().expect("valid credentials");
    let inserted = inserted_one(run(&mut table, statement, auth_key, keep_auth)).expect("insert succeeds");
    assert!(is_v4(inserted.id));
    assert_eq!(inserted.email, "a@b.com");
    assert_ne!(inserted.password, "password123");
    assert!(hashes("password123", &inserted.password));
    assert!(!hashes("password124", &inserted.password));

    let created = insert_auth_user_api(Ok(inserted.clone())).expect("created");
    assert_eq!(created.message, "Successfully added the new Auth User.");
    assert_eq!(created.data, inserted);

    let again = found(run(&mut table, find_auth_user_by_id(inserted.id), auth_key, keep_auth)).expect("found");
    assert_eq!(again, inserted);
    let response = find_auth_user_by_id_api(Ok(again)).expect("found response");
    assert_eq!(response.data.email, "a@b.com");
    assert_eq!(response.data.password, inserted.password);
    assert_eq!(response.message, "Successfully found the Auth User.");
}

#[test]
fn insert_then_find_user_and_team_keep_their_fields() {
    let mut users: Vec<User> = Vec::new();
    let statement = new_user("ada@example.org", "Ada", "irrelevant").add_user().expect("valid email");
    let user = inserted_one(run(&mut users, statement, user_key, keep_user)).unwrap();
    let back = found(run(&mut users, find_user_by_id(user.id), user_key, keep_user)).unwrap();
    assert_eq!(back.email, "ada@example.org");
    assert_eq!(back.name, "Ada");
    assert!(is_v4(back.id));

    let mut teams: Vec<Team> = Vec::new();
    let new = NewTeam { name: "core".to_string(), description: "the core team".to_string() };
    let team = inserted_one(run(&mut teams, new.insert_team(), team_key, merge_team)).unwrap();
    let back = found(run(&mut teams, find_team_by_id(team.id), team_key, merge_team)).unwrap();
    assert_eq!(back, team);
    assert_eq!(back.name, "core");
    assert_eq!(back.description, "the core team");
}

#[test]
fn insert_then_find_member_keeps_fields_and_is_unmodified() {
    let mut members: Vec<Member> = Vec::new();
    let team = Id::new_v4();
    let user = Id::new_v4();
    let new = NewMember { expired_at: Some(Timestamp { micros: 4_000_000_000_000_000 }), ..new_member(team, user, "Grace") };
    let member = inserted_one(run(&mut members, new.insert_member(), member_key, merge_member)).unwrap();
    let back = found(run(&mut members, find_member_by_id(member.id), member_key, merge_member)).unwrap();
    assert_eq!(back, member);
    assert_eq!(back.team_id, team);
    assert_eq!(back.user_id, user);
    assert_eq!(back.name, "Grace");
    assert_eq!(back.identity_num, "ID-Grace");
    assert_eq!(back.role, "developer");
    assert_eq!(back.expired_at, Some(Timestamp { micros: 4_000_000_000_000_000 }));
    assert_eq!(back.modification_date, None);
}

#[test]
fn bulk_insert_of_three_members_gives_three_distinct_rows() {
    let mut members: Vec<Member> = Vec::new();
    let team = Id::new_v4();
    let user = Id::new_v4();
    let before = current_timestamp();
    let news = vec![new_member(team, user, "a"), new_member(team, user, "b"), new_member(team, user, "c")];
    let statement = new_members(&news);
    let after = current_timestamp();
    let rows = inserted_all(3, run(&mut members, statement, member_key, merge_member)).expect("stored");
    assert_eq!(rows.len(), 3);
    assert_ne!(rows[0].id, rows[1].id);
    assert_ne!(rows[0].id, rows[2].id);
    assert_ne!(rows[1].id, rows[2].id);
    for (row, new) in rows.iter().zip(news.iter()) {
        assert!(is_v4(row.id));
        assert_eq!(row.name, new.name);
        assert_eq!(row.team_id, team);
        assert_eq!(row.user_id, user);
        assert_eq!(row.modification_date, None);
        assert_eq!(row.assigned_at, rows[0].assigned_at);
        assert!(before.micros <= row.assigned_at.micros && row.assigned_at.micros <= after.micros);
    }
    assert_eq!(counted(run(&mut members, count_members(), member_key, merge_member)), Ok(3));

    let response = insert_bulk_members_api(Ok(rows)).expect("created");
    assert_eq!(response.message, "Successfully added the bulk of Members.");
    assert_eq!(response.data.len(), 3);
}

#[test]
fn bulk_insert_grows_the_count_by_n() {
    let mut table: Vec<AuthUser> = Vec::new();
    let first = new_auth_users(&vec![new_user("x@y.io", "", "123456789")]).unwrap();
    inserted_all(1, run(&mut table, first, auth_key, keep_auth)).unwrap();
    let news = vec![new_user("one@y.io", "", "password1"), new_user("two@y.io", "", "password2")];
    let statement = new_auth_users(&news).unwrap();
    let rows = inserted_all(2, run(&mut table, statement, auth_key, keep_auth)).unwrap();
    assert_eq!(rows[0].email, "one@y.io");
    assert!(hashes("password2", &rows[1].password));
    assert_ne!(rows[0].password, rows[1].password);
    assert_eq!(counted(run(&mut table, count_auth_users(), auth_key, keep_auth)), Ok(3));
}

#[test]
fn bulk_insert_with_a_taken_id_is_a_duplication_and_stores_nothing() {
    let mut table: Vec<AuthUser> = Vec::new();
    let taken = AuthUser { id: Id { value: 7 }, email: "p@q.com".to_string(), password: "password123".to_string() };
    let statement = insert_bulk_auth_users(vec![taken.clone()]).unwrap();
    inserted_all(1, run(&mut table, statement, auth_key, keep_auth)).unwrap();
    let other = AuthUser { id: Id { value: 8 }, email: "r@q.com".to_string(), password: "password123".to_string() };
    let statement = insert_bulk_auth_users(vec![other, taken]).unwrap();
    assert_eq!(inserted_all(2, run(&mut table, statement, auth_key, keep_auth)).unwrap_err(), Error::DuplicationError);
    assert_eq!(counted(run(&mut table, count_auth_users(), auth_key, keep_auth)), Ok(1));
    assert_eq!(inserted_one::<AuthUser>(Reply::Conflict).unwrap_err(), Error::DuplicationError);
    assert_eq!(inserted_one::<AuthUser>(Reply::Failed).unwrap_err(), Error::DBError);
}

#[test]
fn pages_never_exceed_page_size_and_count_is_the_table_size() {
    let mut teams: Vec<Team> = Vec::new();
    let news: Vec<NewTeam> =
        (0..5).map(|i| NewTeam { name: format!("team{}", i), description: String::new() }).collect();
    inserted_all(5, run(&mut teams, new_teams(&news), team_key, merge_team)).unwrap();

    let page = PaginationDTO { page_size: 2, offset: 0 };
    let rows = listed(2, run(&mut teams, list_all_teams(&page).unwrap(), team_key, merge_team)).unwrap();
    assert_eq!(rows.len(), 2);
    assert_eq!(rows[0].name, "team0");

    let page = PaginationDTO { page_size: 3, offset: 4 };
    let rows = listed(3, run(&mut teams, list_all_teams(&page).unwrap(), team_key, merge_team)).unwrap();
    assert_eq!(rows.len(), 1);
    assert_eq!(rows[0].name, "team4");

    let page = PaginationDTO { page_size: 0, offset: 0 };
    let rows = listed(0, run(&mut teams, list_all_teams(&page).unwrap(), team_key, merge_team)).unwrap();
    assert!(rows.is_empty());

    assert_eq!(counted(run(&mut teams, count_teams(), team_key, merge_team)), Ok(5));
}

#[test]
fn negative_pagination_is_refused_before_the_store() {
    let page = PaginationDTO { page_size: -1, offset: 0 };
    assert_eq!(list_all_auth_users(&page).unwrap_err(), Error::PaginationError);
    let page = PaginationDTO { page_size: 10, offset: -5 };
    assert_eq!(list_all_teams(&page).unwrap_err(), Error::PaginationError);
    let page = PaginationDTO { page_size: 10, offset: 20 };
    match list_all_auth_users(&page).unwrap() {
        Statement::Page { limit, offset } => {
            assert_eq!(limit, 10);
            assert_eq!(offset, 20);
        }
        other => panic!("unexpected statement {:?}", other),
    }
}

#[test]
fn a_store_that_returns_too_many_rows_is_a_fault() {
    let three = vec![Team { id: Id { value: 1 }, name: String::new(), description: String::new() }; 3];
    assert_eq!(listed(2, Reply::Rows(three)).unwrap_err(), Error::DBError);
    assert_eq!(counted::<Team>(Reply::Count(-1)), Err(Error::DBError));
    assert_eq!(counted::<Team>(Reply::Failed), Err(Error::DBError));
}

#[test]
fn delete_after_insert_then_find_is_not_found() {
    let mut table: Vec<AuthUser> = Vec::new();
    let statement = new_user("del@b.com", "", "password123").add_auth_user().unwrap();
    let row = inserted_one(run(&mut table, statement, auth_key, keep_auth)).unwrap();
    let outcome = deleted(run(&mut table, delete_auth_user_by_id(row.id), auth_key, keep_auth));
    assert_eq!(outcome, DeleteOutcome::Deleted);
    assert!(outcome.is_deleted());
    let again = found(run(&mut table, find_auth_user_by_id(row.id), auth_key, keep_auth));
    assert_eq!(again.unwrap_err(), Error::NotFound);

    let outcome = deleted(run(&mut table, delete_auth_user_by_id(row.id), auth_key, keep_auth));
    assert_eq!(outcome, DeleteOutcome::NotFound);
    assert!(!outcome.is_deleted());
}

#[test]
fn delete_of_an_unknown_team_is_not_found_and_faults_are_store_errors() {
    let mut teams: Vec<Team> = Vec::new();
    let outcome = deleted(run(&mut teams, delete_team_by_id(Id { value: 42 }), team_key, merge_team));
    assert_eq!(outcome, DeleteOutcome::NotFound);
    assert_eq!(deleted::<Team>(Reply::Failed), DeleteOutcome::StoreError);
    assert_eq!(deleted::<Team>(Reply::Affected(2)), DeleteOutcome::StoreError);
}

#[test]
fn update_member_changes_only_the_updatable_fields() {
    let mut members: Vec<Member> = Vec::new();
    let team = Id::new_v4();
    let user = Id::new_v4();
    let original =
        inserted_one(run(&mut members, new_member(team, user, "Lin").insert_member(), member_key, merge_member))
            .unwrap();
    let incoming = Member {
        id: original.id,
        team_id: Id::new_v4(),
        user_id: Id::new_v4(),
        name: "Lin Wei".to_string(),
        identity_num: "ID-9".to_string(),
        role: "lead".to_string(),
        assigned_at: Timestamp { micros: 0 },
        expired_at: Some(Timestamp { micros: 5 }),
        modification_date: None,
    };
    let before = current_timestamp();
    let statement = update_member(&incoming);
    let updated = found(run(&mut members, statement, member_key, merge_member)).unwrap();
    assert_eq!(updated.id, original.id);
    assert_eq!(updated.team_id, original.team_id);
    assert_eq!(updated.user_id, original.user_id);
    assert_eq!(updated.assigned_at, original.assigned_at);
    assert_eq!(updated.name, "Lin Wei");
    assert_eq!(updated.identity_num, "ID-9");
    assert_eq!(updated.role, "lead");
    assert_eq!(updated.expired_at, Some(Timestamp { micros: 5 }));
    let modified = updated.modification_date.expect("set by the update");
    assert!(modified.micros >= before.micros);
}

#[test]
fn update_team_sets_name_and_description() {
    let mut teams: Vec<Team> = Vec::new();
    let new = NewTeam { name: "old".to_string(), description: "old text".to_string() };
    let team = inserted_one(run(&mut teams, new.insert_team(), team_key, merge_team)).unwrap();
    let incoming = Team { id: team.id, name: "new".to_string(), description: "new text".to_string() };
    let updated = found(run(&mut teams, update_auth_user(&incoming), team_key, merge_team)).unwrap();
    assert_eq!(updated, incoming);
    let missing = Team { id: Id { value: 1 }, name: String::new(), description: String::new() };
    assert_eq!(found(run(&mut teams, update_auth_user(&missing), team_key, merge_team)).unwrap_err(), Error::NotFound);
}

#[test]
fn invalid_emails_and_passwords_are_refused_before_the_store() {
    assert_eq!(new_user("not-an-email", "", "password123").add_auth_user().unwrap_err(), Error::InvalidEmail);
    assert_eq!(new_user("", "", "password123").add_auth_user().unwrap_err(), Error::InvalidEmail);
    assert_eq!(new_user("a@b.com", "", "short").add_auth_user().unwrap_err(), Error::InvalidPassword);
    assert_eq!(new_user("a@b.com", "", "12345678").add_auth_user().unwrap_err(), Error::InvalidPassword);
    assert!(new_user("a@b.com", "", "123456789").add_auth_user().is_ok());
    assert!(new_user("a@b.com", "", &"p".repeat(127)).add_auth_user().is_ok());
    assert_eq!(new_user("a@b.com", "", &"p".repeat(128)).add_auth_user().unwrap_err(), Error::InvalidPassword);
    assert_eq!(new_user("bad", "", "short").add_auth_user().unwrap_err(), Error::InvalidEmail);
    assert_eq!(new_user("missing.at.sign", "Bo", "").add_user().unwrap_err(), Error::InvalidEmail);

    let news = vec![
        new_user("ok@b.com", "", "password123"),
        new_user("ok2@b.com", "", "tiny"),
        new_user("broken", "", "password123"),
    ];
    assert_eq!(new_auth_users(&news).unwrap_err(), Error::InvalidPassword);

    let users = vec![
        User { id: Id { value: 1 }, email: "u@v.com".to_string(), name: String::new() },
        User { id: Id { value: 2 }, email: "nope".to_string(), name: String::new() },
    ];
    assert_eq!(insert_bulk_users(users).unwrap_err(), Error::InvalidEmail);

    let rows = vec![AuthUser { id: Id { value: 3 }, email: "@".to_string(), password: "password123".to_string() }];
    assert_eq!(insert_bulk_auth_users(rows).unwrap_err(), Error::InvalidEmail);
}

#[test]
fn hashing_under_a_given_salt_is_repeatable_and_verifiable() {
    let new = new_user("salt@b.com", "", "password123");
    let salt = "c2FsdHNhbHRzYWx0c2FsdA".to_string();
    let first = auth_user_with_salt(&new, Id { value: 11 }, &salt).expect("hashed");
    let second = auth_user_with_salt(&new, Id { value: 12 }, &salt).expect("hashed");
    assert_eq!(first.id, Id { value: 11 });
    assert_eq!(first.email, "salt@b.com");
    assert_eq!(first.password, second.password);
    assert!(first.password.starts_with("$argon2id$"));
    assert!(first.password.contains(salt.as_str()));
    assert!(hashes("password123", &first.password));
    let other = auth_user_with_salt(&new, Id { value: 13 }, &"b3RoZXJzYWx0b3RoZXJzYQ".to_string()).unwrap();
    assert_ne!(other.password, first.password);
    assert!(auth_user_with_salt(&new, Id { value: 14 }, &"not b64 !".to_string()).is_none());
}
