use authcore::actors::rbac::{handle_command, Command, CommandOutcome, Error, PolicyEngine};
use authcore::domain::role::{Role, RouteItem};
use authcore::domain::user::User;
use authcore::domain::base::BaseModel;
use authcore::domain::common::Secret;

fn engine() -> PolicyEngine {
    PolicyEngine::new("bozzasggmy".to_string())
}

fn route(path: &str) -> RouteItem {
    RouteItem {
        module: "core".to_string(),
        path: path.to_string(),
        description: String::new(),
    }
}

fn user(name: &str, role_name: &str) -> User {
    User {
        base: BaseModel::new(format!("id-{}", name)),
        secret: Secret::new(name.to_string(), "secret-pw".to_string()).unwrap(),
        name: name.to_string(),
        age: 30,
        avatar: String::new(),
        is_active: true,
        role_name: role_name.to_string(),
    }
}

#[test]
fn test_enforcer_model() {
    let mut enforcer = engine();
    enforcer
        .add_policy_fact("admin".to_string(), "read".to_string())
        .unwrap();

    let who = "zhangsan";
    enforcer
        .add_role_assignment(who.to_string(), "admin".to_string())
        .unwrap();

    let is_ok = enforcer.evaluate(who, "read");
    assert_eq!(is_ok, true);

    let is_false = enforcer.evaluate(who, "write");
    assert_eq!(is_false, false);

    // user not in the role
    let is_false = enforcer.evaluate("test", "read");
    assert_eq!(is_false, false);
}

#[test]
fn bypass_subject_is_allowed_everything() {
    let e = engine();
    assert!(e.evaluate("bozzasggmy", "/anything/at/all"));
    assert!(!e.evaluate("someone-else", "/anything/at/all"));
}

#[test]
fn empty_subject_fact_is_a_policy_error() {
    let mut e = engine();
    let r = e.add_policy_fact(String::new(), "read".to_string());
    assert!(matches!(r, Err(Error::PolicyError(_))));
    let r = e.add_role_assignment("alice".to_string(), String::new());
    assert!(matches!(r, Err(Error::PolicyError(_))));
}

#[test]
fn reload_grants_alice_the_editor_routes() {
    let mut e = engine();
    let roles = vec![Role::new(
        "r1".to_string(),
        "editor".to_string(),
        vec![route("/posts/write")],
    )];
    let users = vec![user("alice", "editor")];
    e.reload(&roles, &users).unwrap();

    assert_eq!(e.evaluate("alice", "/posts/write"), true);
    assert_eq!(e.evaluate("alice", "/posts/delete"), false);
}

#[test]
fn reload_replaces_stale_facts_wholesale() {
    let mut e = engine();
    let old_roles = vec![Role::new(
        "r1".to_string(),
        "editor".to_string(),
        vec![route("/posts/write")],
    )];
    let old_users = vec![user("alice", "editor")];
    e.reload(&old_roles, &old_users).unwrap();
    assert!(e.evaluate("alice", "/posts/write"));

    let new_roles = vec![Role::new(
        "r2".to_string(),
        "viewer".to_string(),
        vec![route("/posts/read")],
    )];
    let new_users = vec![user("bob", "viewer")];
    e.reload(&new_roles, &new_users).unwrap();

    // the new facts hold, the pre-reload facts are gone
    assert!(e.evaluate("bob", "/posts/read"));
    assert!(!e.evaluate("alice", "/posts/write"));
    assert!(!e.evaluate("bob", "/posts/write"));
}

#[test]
fn failed_reload_keeps_the_partial_state() {
    let mut e = engine();
    // the second permission is malformed: empty path
    let roles = vec![Role::new(
        "r1".to_string(),
        "editor".to_string(),
        vec![route("/posts/write"), route("")],
    )];
    let users = vec![user("alice", "editor")];
    let r = e.reload(&roles, &users);
    assert!(matches!(r, Err(Error::PolicyError(_))));

    // the fact loaded before the malformed one is still in place,
    // but no assignment was loaded, so nothing is granted
    assert!(!e.evaluate("alice", "/posts/write"));
}

#[test]
fn an_empty_engine_denies_everyone_but_the_bypass_subject() {
    let e = engine();
    assert!(!e.evaluate("alice", "/posts/write"));
    assert!(!e.evaluate("", ""));
    assert!(e.evaluate("bozzasggmy", ""));
}

#[test]
fn reload_from_empty_sources_leaves_nothing_granted() {
    let mut e = engine();
    let roles = vec![Role::new(
        "r1".to_string(),
        "editor".to_string(),
        vec![route("/posts/write")],
    )];
    let users = vec![user("alice", "editor")];
    e.reload(&roles, &users).unwrap();
    assert!(e.evaluate("alice", "/posts/write"));

    e.reload(&Vec::new(), &Vec::new()).unwrap();
    assert!(!e.evaluate("alice", "/posts/write"));
}

#[test]
fn commands_are_answered_in_order_against_current_state() {
    let mut e = engine();
    let roles = vec![Role::new(
        "r1".to_string(),
        "editor".to_string(),
        vec![route("/posts/write")],
    )];
    let users = vec![user("alice", "editor")];

    let before = handle_command(
        &mut e,
        Command::CheckPermission { user: "alice".to_string(), action: "/posts/write".to_string() },
    );
    assert!(matches!(before, CommandOutcome::Permission(false)));

    let reset = handle_command(&mut e, Command::Reset { roles, users });
    assert!(matches!(reset, CommandOutcome::ResetDone));

    let after = handle_command(
        &mut e,
        Command::CheckPermission { user: "alice".to_string(), action: "/posts/write".to_string() },
    );
    assert!(matches!(after, CommandOutcome::Permission(true)));
}
