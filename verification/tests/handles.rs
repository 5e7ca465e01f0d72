use authcore::config::{AppConfig, Database};
use authcore::database;
use authcore::domain::base::BaseModel;
use authcore::domain::common::Secret;
use authcore::domain::user::User;
use authcore::handles::errors::{data_not_found, internal_server_error, Error};
use authcore::handles::login::authenticate;
use authcore::handles::middlewares::bearer_token;
use authcore::handles::response::{
    api_ok, api_ok_with_data, api_permission_denied, api_system_error, api_unauthorized,
};
use authcore::jwt::TokenPayload;
use authcore::database::base::{default_page, default_page_size, NumberItem};

fn sample_user() -> User {
    User {
        base: BaseModel::new("u1".to_string()),
        secret: Secret::new("alice".to_string(), "secret-pw".to_string()).unwrap(),
        name: "Alice".to_string(),
        age: 30,
        avatar: String::new(),
        is_active: true,
        role_name: "editor".to_string(),
    }
}

#[test]
fn login_with_the_right_password_yields_the_payload() {
    let r = authenticate(Some(sample_user()), "secret-pw").unwrap();
    assert_eq!(r.id, "u1");
    assert_eq!(r.account, "alice");
    assert_eq!(r.role, "editor");
}

#[test]
fn login_with_the_wrong_password_is_a_bad_request() {
    let r = authenticate(Some(sample_user()), "wrong");
    match r {
        Err(Error::BadRequest(m)) => assert_eq!(m, "用户名或密码错误"),
        _ => panic!("expected the bad-credentials error"),
    }
}

#[test]
fn login_of_an_unknown_account_is_the_same_bad_request() {
    let r = authenticate(None, "secret-pw");
    assert!(matches!(r, Err(Error::BadRequest(_))));
}

#[test]
fn bearer_token_strips_the_marker() {
    assert_eq!(bearer_token("Bearer abc.def"), "abc.def");
    assert_eq!(bearer_token("abc.def"), "abc.def");
    assert_eq!(bearer_token("Bearer "), "");
}

#[test]
fn statistic_url_hangs_the_trimmed_path_off_the_host() {
    let cfg = AppConfig {
        database: Database { uri: "mongodb://localhost".to_string(), db_name: "db".to_string() },
        secret: "k".to_string(),
        statistic_host: "https://stats.example".to_string(),
    };
    assert_eq!(cfg.get_statistic_url("./x/y.png"), "https://stats.example/x/y.png");
    assert_eq!(cfg.get_statistic_url("/upload/z.png"), "https://stats.example//z.png");
    assert_eq!(cfg.get_statistic_url("./upload-stats"), "https://stats.example/upload-stats");
    assert_eq!(cfg.get_statistic_url("plain"), "https://stats.example/plain");
}

#[test]
fn api_responses_carry_their_fixed_envelopes() {
    let ok = api_ok().unwrap();
    assert_eq!(ok.status, 200);
    assert_eq!(ok.message, "OK");
    assert!(ok.success);
    assert!(ok.data.is_none());

    let with_data = api_ok_with_data(7u64).unwrap();
    assert_eq!(with_data.status, 200);
    assert_eq!(with_data.data, Some(7));

    let unauthorized = api_unauthorized().unwrap();
    assert_eq!(unauthorized.status, 401);
    assert!(!unauthorized.success);

    let denied = api_permission_denied().unwrap();
    assert_eq!(denied.status, 403);
    assert_eq!(denied.message, "Permission denied");

    let broken = api_system_error("queue gone".to_string()).unwrap();
    assert_eq!(broken.status, 500);
    assert_eq!(broken.message, "System error: queue gone");
}

#[test]
fn error_status_codes_follow_the_taxonomy() {
    assert_eq!(internal_server_error().status_code(), 500);
    assert_eq!(data_not_found().status_code(), 404);
    assert_eq!(Error::BadRequest("x".to_string()).status_code(), 400);
    assert_eq!(Error::Unauthorized.status_code(), 401);
    assert_eq!(Error::Forbidden.status_code(), 403);
    assert_eq!(Error::OtherError("x".to_string()).status_code(), 400);
    assert_eq!(
        Error::RepositoryError(database::errors::Error::OptimisticLockingError).status_code(),
        500
    );
}

#[test]
fn token_payload_reads_missing_claims_as_empty() {
    let p = TokenPayload::from_fields(Some("u1".to_string()), None, Some("editor".to_string()));
    assert_eq!(p.id, "u1");
    assert_eq!(p.account, "");
    assert_eq!(p.role, "editor");

    let q = TokenPayload::new("a".to_string(), "b".to_string(), "c".to_string());
    assert_eq!((q.id.as_str(), q.account.as_str(), q.role.as_str()), ("a", "b", "c"));
}

#[test]
fn pagination_defaults_are_twenty_and_one() {
    assert_eq!(default_page_size(), 20);
    assert_eq!(default_page(), 1);
}

#[test]
fn number_items_read_the_rows() {
    let rows = vec![("alpha".to_string(), 3i64), ("beta".to_string(), 9i64)];
    let items = NumberItem::vec_from_rows(&rows);
    assert_eq!(items.len(), 2);
    assert_eq!(items[0].name, "alpha");
    assert_eq!(items[0].value, 3);
    assert_eq!(items[0].id, Some("alpha".to_string()));
    assert_eq!(items[1].name, "beta");
    assert_eq!(items[1].value, 9);
}
