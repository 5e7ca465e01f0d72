use authcore::database::errors::Error;
use authcore::database::store::{RoleStore, UserStore};
use authcore::database::role::RoleRepository;
use authcore::database::user::UserRepository;
use authcore::domain::base::BaseModel;
use authcore::domain::common::Secret;
use authcore::domain::role::Role;
use authcore::domain::user::User;

fn user_doc(id: &str, version: u64) -> User {
    User {
        base: BaseModel {
            id: id.to_string(),
            created_at: 1,
            updated_at: 1,
            deleted_at: 0,
            version,
        },
        secret: Secret::new(format!("{}-account", id), "secret-pw".to_string()).unwrap(),
        name: format!("{}-name", id),
        age: 30,
        avatar: String::new(),
        is_active: true,
        role_name: "editor".to_string(),
    }
}

#[test]
fn two_writers_on_one_version_yield_one_winner() {
    let repo = UserRepository::new();
    let mut store = UserStore::new();
    let stored = user_doc("x", 3);
    repo.create(&stored, &mut store).unwrap();

    // two tasks read version 3 and prepare different changes
    let mut first = user_doc("x", 3);
    first.age = 31;
    let mut second = user_doc("x", 3);
    second.age = 52;

    assert!(repo.update(&first, &mut store).is_ok());
    let loser = repo.update(&second, &mut store);
    assert!(matches!(loser, Err(Error::OptimisticLockingError)));

    // the loser re-reads and observes version 4, with the winner's fields
    let current = repo.find_by_id("x", &store).unwrap().unwrap();
    assert_eq!(current.base.version, 4);
    assert_eq!(current.age, 31);

    // the re-read by account sees the same surviving document
    let by_account = repo.find_by_account("x-account", &store).unwrap().unwrap();
    assert_eq!(by_account.base.version, 4);
    assert_eq!(by_account.age, 31);
}

#[test]
fn a_retry_after_the_re_read_succeeds() {
    let repo = UserRepository::new();
    let mut store = UserStore::new();
    repo.create(&user_doc("x", 0), &mut store).unwrap();

    let first = user_doc("x", 0);
    assert!(repo.update(&first, &mut store).is_ok());

    let stale = user_doc("x", 0);
    assert!(repo.update(&stale, &mut store).is_err());

    let mut fresh = repo.find_by_id("x", &store).unwrap().unwrap();
    assert_eq!(fresh.base.version, 1);
    fresh.age = 99;
    assert!(repo.update(&fresh, &mut store).is_ok());
    let current = repo.find_by_id("x", &store).unwrap().unwrap();
    assert_eq!(current.base.version, 2);
    assert_eq!(current.age, 99);
}

#[test]
fn update_of_a_missing_entity_is_a_locking_error() {
    let repo = UserRepository::new();
    let mut store = UserStore::new();
    let ghost_entity = user_doc("nowhere", 0);
    let r = repo.update(&ghost_entity, &mut store);
    assert!(matches!(r, Err(Error::OptimisticLockingError)));
}

#[test]
fn duplicate_identifier_is_refused_on_insert() {
    let repo = UserRepository::new();
    let mut store = UserStore::new();
    repo.create(&user_doc("x", 0), &mut store).unwrap();
    let r = repo.create(&user_doc("x", 7), &mut store);
    assert!(matches!(r, Err(Error::DatabaseError(_))));
}

#[test]
fn soft_deleted_documents_are_invisible_to_queries() {
    let repo = UserRepository::new();
    let mut store = UserStore::new();
    let mut gone = user_doc("gone", 0);
    gone.base.deleted_at = 77;
    repo.create(&gone, &mut store).unwrap();
    repo.create(&user_doc("here", 0), &mut store).unwrap();

    assert!(repo.find_by_id("gone", &store).unwrap().is_none());
    assert!(repo.find_by_id("here", &store).unwrap().is_some());

    let all = repo.find_all(&store).unwrap();
    assert_eq!(all.len(), 1);
    assert_eq!(all[0].base.id, "here");

    let ids = vec!["gone".to_string(), "here".to_string()];
    let some = repo.find_by_ids(&ids, &store).unwrap();
    assert_eq!(some.len(), 1);
    assert_eq!(some[0].base.id, "here");
}

#[test]
fn find_by_account_reads_the_credential() {
    let repo = UserRepository::new();
    let mut store = UserStore::new();
    repo.create(&user_doc("u1", 0), &mut store).unwrap();

    let found = repo.find_by_account("u1-account", &store).unwrap();
    assert_eq!(found.unwrap().base.id, "u1");
    assert!(repo.find_by_account("nobody", &store).unwrap().is_none());
}

#[test]
fn the_fake_account_answers_without_the_store() {
    let repo = UserRepository::new();
    let store = UserStore::new();
    let u = repo.find_by_account("qqwweeasf", &store).unwrap().unwrap();
    assert_eq!(u.base.id, "fake");
    assert_eq!(u.base.created_at, 0);
    assert_eq!(u.base.updated_at, 0);
    assert_eq!(u.base.version, 0);
    assert_eq!(u.base.deleted_at, 0);
    assert_eq!(u.name, "fake");
    assert_eq!(u.age, 18);
    assert_eq!(u.role_name, "admin");
    assert!(u.is_active);
    assert!(u.secret.is_match("fake"));
}

#[test]
fn role_repository_reads_live_roles() {
    let repo = RoleRepository::new();
    let mut store = RoleStore::new();
    store.insert_one(Role::new("r1".to_string(), "editor".to_string(), vec![]));
    let mut deleted = Role::new("r2".to_string(), "ghost".to_string(), vec![]);
    deleted.base.deleted_at = 9;
    store.insert_one(deleted);

    let roles = repo.find_all(&store).unwrap();
    assert_eq!(roles.len(), 1);
    assert_eq!(roles[0].name, "editor");
}
