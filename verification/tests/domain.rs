use authcore::domain::base::{difference_ids, BaseModel, Model};
use authcore::domain::common::{DateRange, Secret};
use authcore::domain::errors::Error;
use authcore::domain::role::{Role, RouteItem};
use authcore::actors::fetcher::RBACRole;

#[test]
fn secret_stores_the_digest_not_the_password() {
    let s = Secret::new("alice".to_string(), "secret-pw".to_string()).unwrap();
    assert_eq!(s.account, "alice");
    assert_eq!(s.password, "d6cd129e0088f82faab428b425f92ac4");
}

#[test]
fn secret_matches_only_the_right_password() {
    let s = Secret::new("alice".to_string(), "secret-pw".to_string()).unwrap();
    assert!(s.is_match("secret-pw"));
    assert!(!s.is_match("wrong"));
    assert!(!s.is_match(""));
}

#[test]
fn empty_password_is_refused() {
    let r = Secret::new("alice".to_string(), String::new());
    assert!(matches!(r, Err(Error::LogicError(_))));
}

#[test]
fn change_password_replaces_the_digest() {
    let mut s = Secret::new("alice".to_string(), "secret-pw".to_string()).unwrap();
    s.change_password("wrong".to_string());
    assert_eq!(s.account, "alice");
    assert_eq!(s.password, "2bda2998d9b0ee197da142a0447f6725");
    assert!(s.is_match("wrong"));
    assert!(!s.is_match("secret-pw"));
}

#[test]
fn fake_secret_is_the_digest_of_fake() {
    let s = Secret::fake();
    assert_eq!(s.account, "fake");
    assert_eq!(s.password, "144c9defac04969c7bfad8efaa8ea194");
    assert!(s.is_match("fake"));
}

#[test]
fn base_model_starts_at_version_zero_and_not_deleted() {
    let b = BaseModel::new("some-id".to_string());
    assert_eq!(b.id, "some-id");
    assert_eq!(b.version, 0);
    assert_eq!(b.deleted_at, 0);
    assert_eq!(b.created_at, b.updated_at);
}

#[test]
fn delete_marks_the_record() {
    let mut b = BaseModel::new("some-id".to_string());
    b.delete();
    assert!(b.deleted_at > 0);
    assert_eq!(b.version, 0);
}

#[test]
fn fake_base_model_is_all_zeroes_under_the_fake_id() {
    let b = BaseModel::fake();
    assert_eq!(b.id, "fake");
    assert_eq!(b.created_at, 0);
    assert_eq!(b.updated_at, 0);
    assert_eq!(b.deleted_at, 0);
    assert_eq!(b.version, 0);
}

#[test]
fn date_range_reports_missing_bounds() {
    let full = DateRange { start: Some(3), end: Some(9) };
    assert!(!full.is_empty());
    assert_eq!(full.to_period(), (3, 9));

    let half = DateRange { start: Some(3), end: None };
    assert!(half.is_empty());
    assert_eq!(half.to_period(), (3, 0));

    let none = DateRange { start: None, end: None };
    assert!(none.is_empty());
    assert_eq!(none.to_period(), (0, 0));
}

#[test]
fn role_flattens_into_one_fact_per_permission() {
    let role = Role::new(
        "r1".to_string(),
        "editor".to_string(),
        vec![
            RouteItem {
                module: "posts".to_string(),
                path: "/posts/write".to_string(),
                description: "write posts".to_string(),
            },
            RouteItem {
                module: "posts".to_string(),
                path: "/posts/read".to_string(),
                description: "read posts".to_string(),
            },
        ],
    );
    let facts = role.to_casbin_policy();
    assert_eq!(facts.len(), 2);
    assert_eq!(facts[0], vec!["editor".to_string(), "/posts/write".to_string()]);
    assert_eq!(facts[1], vec!["editor".to_string(), "/posts/read".to_string()]);
}

#[test]
fn difference_ids_reports_the_unknown_ids_once() {
    let roles = vec![
        Role::new("a".to_string(), "one".to_string(), vec![]),
        Role::new("b".to_string(), "two".to_string(), vec![]),
    ];
    let targets = vec![
        "a".to_string(),
        "c".to_string(),
        "b".to_string(),
        "c".to_string(),
        "d".to_string(),
    ];
    let missing = difference_ids(&targets, &roles);
    assert_eq!(missing, vec!["c".to_string(), "d".to_string()]);
}

#[test]
fn model_id_reads_the_base_id() {
    let role = Role::new("a".to_string(), "one".to_string(), vec![]);
    assert_eq!(role.id(), "a");
}
