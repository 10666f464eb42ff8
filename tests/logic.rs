use taskscore::client::{DbActionError, GraphClient};
use taskscore::credential::LoginRequest;
use taskscore::entity::{Session, User};
use taskscore::logic::{ApplicationLogic, AuthError, login_decision};
use taskscore::memory::MemoryStore;
use taskscore::repository::{SessionRepository, UserRepository};
use taskscore::value::{Label, Value};

fn user(name: &str, secret: &str) -> User {
    User {
        id: None,
        username: name.to_string(),
        display_name: name.to_uppercase(),
        password_hash: bcrypt::hash(secret, 4).unwrap(),
        is_admin: false,
    }
}

fn logic_with_alice() -> (ApplicationLogic<MemoryStore>, i64) {
    let mut logic = ApplicationLogic::new(MemoryStore::new());
    logic.add_user(&user("bob", "hunter2")).unwrap();
    let alice = logic.add_user(&user("alice", "secret")).unwrap();
    (logic, alice.id.unwrap())
}

fn request(name: &str, password: Option<&str>) -> LoginRequest {
    LoginRequest { username: name.to_string(), password: password.map(|p| p.to_string()) }
}

#[test]
fn add_then_find_by_id() {
    let (logic, id) = logic_with_alice();
    let found = logic.get_user(id).unwrap().unwrap();
    assert_eq!(found.id, Some(id));
    assert_eq!(found.username, "alice");
    assert_eq!(found.display_name, "ALICE");
    assert!(bcrypt::verify("secret", &found.password_hash).unwrap());
    assert!(!found.is_admin);
    assert!(logic.get_user(id + 100).unwrap().is_none());
    assert!(logic.get_user(-1).unwrap().is_none());
}

#[test]
fn find_by_username() {
    let (logic, id) = logic_with_alice();
    assert_eq!(logic.find_user_by_username(&"alice".to_string()).unwrap().unwrap().id, Some(id));
    assert!(logic.find_user_by_username(&"carol".to_string()).unwrap().is_none());
}

#[test]
fn all_users() {
    let (logic, _) = logic_with_alice();
    let mut names: Vec<String> = logic.get_all_users().unwrap().into_iter().map(|u| u.username).collect();
    names.sort();
    assert_eq!(names, vec!["alice".to_string(), "bob".to_string()]);
    let empty = ApplicationLogic::new(MemoryStore::new());
    assert!(empty.get_all_users().unwrap().is_empty());
}

#[test]
fn login_creates_a_findable_session() {
    let (mut logic, id) = logic_with_alice();
    let s = logic.login(&request("alice", Some("secret"))).unwrap();
    assert_eq!(s.user, id);
    assert!(s.node_id.is_some());
    assert_eq!(s.started, s.refreshed);
    let found = logic.get_session(&s.id).unwrap().unwrap();
    assert_eq!(found.id, s.id);
    assert_eq!(found.node_id, s.node_id);
    assert_eq!(found.user, id);
    assert_eq!((found.started, found.refreshed), (s.started, s.refreshed));
}

#[test]
fn login_failures_look_alike() {
    let (mut logic, _) = logic_with_alice();
    assert_eq!(logic.login(&request("alice", Some("wrong"))).unwrap_err(), AuthError::InvalidCredentials);
    assert_eq!(logic.login(&request("mallory", Some("secret"))).unwrap_err(), AuthError::InvalidCredentials);
    assert_eq!(logic.login(&request("alice", None)).unwrap_err(), AuthError::InvalidCredentials);
    assert!(logic.client.fetch_all(Label::Session).unwrap().is_empty());
}

#[test]
fn logout_of_unknown_session_succeeds() {
    let (mut logic, _) = logic_with_alice();
    assert_eq!(logic.logout(&"nope".to_string()), Ok(()));
    assert_eq!(logic.logout(&"nope".to_string()), Ok(()));
}

#[test]
fn logout_removes_the_session() {
    let (mut logic, _) = logic_with_alice();
    let s = logic.login(&request("alice", Some("secret"))).unwrap();
    let other = logic.login(&request("alice", Some("secret"))).unwrap();
    assert_eq!(logic.logout(&s.id), Ok(()));
    assert!(logic.get_session(&s.id).unwrap().is_none());
    assert!(logic.get_session(&other.id).unwrap().is_some());
    assert_eq!(logic.logout(&s.id), Ok(()));
}

#[test]
fn resolve_session_from_cookie() {
    let (mut logic, id) = logic_with_alice();
    assert_eq!(logic.resolve_session(None).unwrap_err(), AuthError::Unauthenticated);
    assert_eq!(logic.resolve_session(Some(&"unknown".to_string())).unwrap_err(), AuthError::Unauthenticated);
    let s = logic.login(&request("alice", Some("secret"))).unwrap();
    let r = logic.resolve_session(Some(&s.id)).unwrap();
    assert_eq!(r.id, s.id);
    assert_eq!(r.user, id);
    assert_eq!(r.started, s.started);
    assert!(r.refreshed >= s.refreshed);
    let stored = logic.get_session(&s.id).unwrap().unwrap();
    assert_eq!(stored.refreshed, r.refreshed);
}

#[test]
fn update_without_identity_fails() {
    let mut store = MemoryStore::new();
    let repo = SessionRepository::new();
    let s = Session::create(1, "t".to_string(), 5);
    assert_eq!(repo.update(&mut store, &s).unwrap_err(), DbActionError::NoIdentity);
    assert_eq!(repo.delete(&mut store, &s).unwrap_err(), DbActionError::NoIdentity);
    assert!(store.fetch_all(Label::Session).unwrap().is_empty());
}

#[test]
fn update_of_unknown_identity_is_not_found() {
    let mut store = MemoryStore::new();
    let repo = SessionRepository::new();
    let mut s = Session::create(1, "t".to_string(), 5);
    s.node_id = Some(3);
    assert_eq!(repo.update(&mut store, &s).unwrap_err(), DbActionError::NotFound);
}

#[test]
fn session_update_writes_new_values() {
    let mut store = MemoryStore::new();
    let repo = SessionRepository::new();
    let mut s = repo.add(&mut store, &Session::create(1, "tok".to_string(), 5)).unwrap();
    s.refresh_at(50);
    repo.update(&mut store, &s).unwrap();
    let found = repo.find_session_by_session_id(&store, &"tok".to_string()).unwrap().unwrap();
    assert_eq!((found.started, found.refreshed), (5, 50));
    repo.delete(&mut store, &s).unwrap();
    assert!(repo.find_session_by_session_id(&store, &"tok".to_string()).unwrap().is_none());
}

#[test]
fn memory_store_identities_are_not_reused() {
    let mut store = MemoryStore::new();
    let users = UserRepository::new();
    let a = users.add(&mut store, &user("a", "x")).unwrap().id.unwrap();
    store.delete(Label::User, a).unwrap();
    let b = users.add(&mut store, &user("b", "y")).unwrap().id.unwrap();
    assert_ne!(a, b);
    assert!(users.find_by_id(&store, a).unwrap().is_none());
    let hits = store.fetch_by_property(Label::User, &"username".to_string(), &Value::Text("b".to_string())).unwrap();
    assert_eq!(hits.len(), 1);
    assert_eq!(hits[0].id, b);
}

#[test]
fn login_decision_cases() {
    let stored = User { id: Some(5), ..user("alice", "secret") };
    assert_eq!(login_decision(Err(DbActionError::Transport), true), Err(AuthError::Store(DbActionError::Transport)));
    assert_eq!(login_decision(Ok(None), true), Err(AuthError::InvalidCredentials));
    assert_eq!(login_decision(Ok(Some(stored.clone())), false), Err(AuthError::InvalidCredentials));
    assert_eq!(login_decision(Ok(Some(stored)), true), Ok(5));
    assert_eq!(login_decision(Ok(Some(user("bob", "x"))), true), Err(AuthError::InvalidCredentials));
}

#[test]
fn login_with_malformed_hash_fails() {
    let mut logic = ApplicationLogic::new(MemoryStore::new());
    let mut u = user("eve", "pw");
    u.password_hash = "pw".to_string();
    logic.add_user(&u).unwrap();
    assert_eq!(logic.login(&request("eve", Some("pw"))).unwrap_err(), AuthError::InvalidCredentials);
}

#[test]
fn end_session_steps() {
    let (mut logic, _) = logic_with_alice();
    assert_eq!(logic.end_session(Err(DbActionError::Query)), Err(DbActionError::Query));
    assert_eq!(logic.end_session(Ok(None)), Ok(()));
    let s = logic.login(&request("alice", Some("secret"))).unwrap();
    assert_eq!(logic.end_session(Ok(Some(Session::create(1, "x".to_string(), 0)))), Err(DbActionError::NoIdentity));
    assert_eq!(logic.end_session(Ok(Some(s.clone()))), Ok(()));
    assert!(logic.get_session(&s.id).unwrap().is_none());
}

#[test]
fn resume_session_steps() {
    let (mut logic, _) = logic_with_alice();
    assert_eq!(logic.resume_session(Err(DbActionError::Transport), 5).unwrap_err(), AuthError::Store(DbActionError::Transport));
    assert_eq!(logic.resume_session(Ok(None), 5).unwrap_err(), AuthError::Unauthenticated);
    let s = logic.login(&request("alice", Some("secret"))).unwrap();
    let later = s.refreshed + 1000;
    let r = logic.resume_session(Ok(Some(s.clone())), later).unwrap();
    assert_eq!((r.started, r.refreshed), (s.started, later));
    assert_eq!(logic.get_session(&s.id).unwrap().unwrap().refreshed, later);
    let r = logic.resume_session(Ok(Some(s.clone())), 0).unwrap();
    assert_eq!(r.refreshed, s.refreshed);
    // A session that is not stored is still resumed; the failed write is ignored.
    let loose = Session::create(1, "loose".to_string(), 10);
    assert_eq!(logic.resume_session(Ok(Some(loose)), 20).unwrap().refreshed, 20);
}

#[test]
fn repository_steps() {
    let s = Session::create(1, "t".to_string(), 5);
    assert_eq!(SessionRepository::first_session(Err(DbActionError::Transport)).unwrap_err(), DbActionError::Transport);
    assert!(SessionRepository::first_session(Ok(vec![])).unwrap().is_none());
    let node = taskscore::value::Node { id: 8, label: Label::Session, props: s.to_property_bag() };
    let found = SessionRepository::first_session(Ok(vec![node.clone()])).unwrap().unwrap();
    assert_eq!((found.node_id, found.id.as_str()), (Some(8), "t"));
    let wrong = taskscore::value::Node { id: 8, label: Label::User, props: s.to_property_bag() };
    assert!(matches!(SessionRepository::first_session(Ok(vec![wrong])), Err(DbActionError::Decode(_))));
    assert_eq!(SessionRepository::stored_session(&s, Err(DbActionError::Constraint)).unwrap_err(), DbActionError::Constraint);
    assert_eq!(SessionRepository::stored_session(&s, Ok(node.clone())).unwrap().node_id, Some(8));
    assert_eq!(SessionRepository::updated_session(&s, Err(DbActionError::Query)).unwrap_err(), DbActionError::Query);
    assert_eq!(SessionRepository::updated_session(&s, Ok(None)).unwrap_err(), DbActionError::NotFound);
    assert_eq!(SessionRepository::updated_session(&s, Ok(Some(node))).unwrap().refreshed, 5);
}
