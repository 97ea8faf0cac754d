use z3_app::db::models::accounts::Account;
use z3_app::db::models::users::{dispatched, Backend, Credentials, Error, User, DEFAULT_POOL_SIZE};
use z3_app::clock::Timestamp;
use z3_app::hasher::hash;

fn creds(email: &str, password: &str) -> Credentials {
    Credentials { email: email.to_string(), password: password.to_string(), next: None }
}

fn user(id: i32, name: &str) -> User {
    User { id, username: name.to_string(), created_at: Timestamp::new(0, 0) }
}

fn email_account(id: i32, user_id: i32, email: &str, password: Option<String>) -> Account {
    Account {
        id,
        user_id,
        type_: "email".to_string(),
        email: Some(email.to_string()),
        password,
        provider: None,
        provider_account_id: None,
        refresh_token: None,
        access_token: None,
        expires_at: None,
        token_type: None,
        scope: None,
        id_token: None,
        session_state: None,
        refresh_token_expires_in: None,
    }
}

#[test]
fn signup_then_authenticate_scenario() {
    let mut backend = Backend::new();
    let alice = backend
        .signup("alice".to_string(), "alice@x.com".to_string(), "secret123")
        .expect("signup succeeds");
    assert_eq!(alice.username, "alice");

    let found = backend.authenticate(creds("alice@x.com", "secret123")).unwrap();
    let found = found.expect("the registered pair signs in");
    assert_eq!(found.username, "alice");
    assert_eq!(found.id, alice.id);

    assert!(backend.authenticate(creds("alice@x.com", "wrong")).unwrap().is_none());
    assert!(backend.authenticate(creds("nobody@x.com", "secret123")).unwrap().is_none());
}

#[test]
fn every_registered_pair_signs_in_with_its_own_id() {
    let mut backend = Backend::new();
    let people = [("ann", "ann@x.com", "pw-ann"), ("bob", "bob@x.com", "pw-bob"), ("cy", "cy@x.com", "pw-cy")];
    let mut ids = Vec::new();
    for (name, email, password) in people {
        ids.push(backend.signup(name.to_string(), email.to_string(), password).unwrap().id);
    }
    assert_eq!(ids, vec![1, 2, 3]);
    for (i, (name, email, password)) in people.iter().enumerate() {
        let found = backend.authenticate(creds(email, password)).unwrap().unwrap();
        assert_eq!(found.id, ids[i]);
        assert_eq!(found.username, *name);
    }
}

#[test]
fn a_password_of_another_user_is_refused() {
    let mut backend = Backend::new();
    backend.signup("ann".to_string(), "ann@x.com".to_string(), "pw-ann").unwrap();
    backend.signup("bob".to_string(), "bob@x.com".to_string(), "pw-bob").unwrap();
    assert!(backend.authenticate(creds("ann@x.com", "pw-bob")).unwrap().is_none());
    assert!(backend.authenticate(creds("bob@x.com", "pw-ann")).unwrap().is_none());
    assert!(backend.authenticate(creds("ann@x.com", "")).unwrap().is_none());
}

#[test]
fn an_unknown_address_is_refused_like_a_wrong_password() {
    let mut backend = Backend::new();
    assert_eq!(backend.authenticate(creds("ann@x.com", "pw-ann")).map(|u| u.is_none()), Ok(true));
    backend.signup("ann".to_string(), "ann@x.com".to_string(), "pw-ann").unwrap();
    let unknown = backend.authenticate(creds("ANN@x.com", "pw-ann")).map(|u| u.map(|u| u.id));
    let wrong = backend.authenticate(creds("ann@x.com", "pw-ANN")).map(|u| u.map(|u| u.id));
    assert_eq!(unknown, Ok(None));
    assert_eq!(unknown, wrong);
}

#[test]
fn get_user_knows_exactly_the_ids_that_signup_issued() {
    let mut backend = Backend::new();
    let mut other = Backend::new();
    assert!(backend.get_user(&1).unwrap().is_none());
    let ann = backend.signup("ann".to_string(), "ann@x.com".to_string(), "pw").unwrap();
    let bob = backend.signup("bob".to_string(), "bob@x.com".to_string(), "pw").unwrap();
    assert_eq!((ann.id, bob.id), (1, 2));
    assert_eq!(backend.get_user(&1).unwrap().unwrap().username, "ann");
    assert_eq!(backend.get_user(&2).unwrap().unwrap().username, "bob");
    for id in [0, 3, -1, i32::MAX, i32::MIN] {
        assert!(backend.get_user(&id).unwrap().is_none(), "id {id} was never issued");
    }
    assert!(other.get_user(&1).unwrap().is_none());
    assert!(other.get_user(&2).unwrap().is_none());
}

#[test]
fn get_user_reads_without_side_effects() {
    let mut backend = Backend::new();
    backend.signup("ann".to_string(), "ann@x.com".to_string(), "pw").unwrap();
    let first = backend.get_user(&1).unwrap().unwrap();
    let second = backend.get_user(&1).unwrap().unwrap();
    assert_eq!(first.id, second.id);
    assert_eq!(first.username, second.username);
    assert_eq!(first.created_at, second.created_at);
    assert_eq!(backend.pool.in_use(), 0);
}

#[test]
fn signup_refuses_a_taken_name_and_writes_nothing() {
    let mut backend = Backend::new();
    backend.signup("ann".to_string(), "ann@x.com".to_string(), "pw").unwrap();
    let again = backend.signup("ann".to_string(), "other@x.com".to_string(), "pw2");
    assert_eq!(again.map(|u| u.id), Err(Error::DuplicateUsername));
    assert!(backend.get_user(&2).unwrap().is_none());
    assert!(backend.authenticate(creds("other@x.com", "pw2")).unwrap().is_none());
    let next = backend.signup("bob".to_string(), "bob@x.com".to_string(), "pw").unwrap();
    assert_eq!(next.id, 2);
}

#[test]
fn the_first_account_for_an_address_is_the_one_checked() {
    let mut backend = Backend::new();
    let ann = backend.signup("ann".to_string(), "shared@x.com".to_string(), "pw-ann").unwrap();
    backend.signup("bob".to_string(), "shared@x.com".to_string(), "pw-bob").unwrap();
    let found = backend.authenticate(creds("shared@x.com", "pw-ann")).unwrap().unwrap();
    assert_eq!(found.id, ann.id);
    assert!(backend.authenticate(creds("shared@x.com", "pw-bob")).unwrap().is_none());
}

#[test]
fn an_exhausted_pool_is_an_error_not_a_refusal() {
    let mut backend = Backend::with_pool_size(1);
    backend.signup("ann".to_string(), "ann@x.com".to_string(), "pw").unwrap();
    let held = backend.pool.checkout().unwrap();
    assert_eq!(backend.authenticate(creds("ann@x.com", "pw")).map(|u| u.is_some()), Err(Error::PoolExhausted));
    assert_eq!(backend.get_user(&1).map(|u| u.is_some()), Err(Error::PoolExhausted));
    assert_eq!(
        backend.signup("bob".to_string(), "bob@x.com".to_string(), "pw").map(|u| u.id),
        Err(Error::PoolExhausted)
    );
    backend.pool.checkin(held);
    assert_eq!(backend.authenticate(creds("ann@x.com", "pw")).map(|u| u.is_some()), Ok(true));
    assert!(backend.get_user(&2).unwrap().is_none());
}

#[test]
fn a_pool_without_connections_answers_nothing() {
    let mut backend = Backend::with_pool_size(0);
    assert_eq!(backend.get_user(&1).map(|u| u.is_some()), Err(Error::PoolExhausted));
    assert_eq!(backend.authenticate(creds("a@x.com", "pw")).map(|u| u.is_some()), Err(Error::PoolExhausted));
}

#[test]
fn a_store_out_of_reach_is_an_error_not_a_refusal() {
    let mut backend = Backend::new();
    backend.signup("ann".to_string(), "ann@x.com".to_string(), "pw").unwrap();
    backend.pool.set_online(false);
    assert_eq!(backend.authenticate(creds("ann@x.com", "pw")).map(|u| u.is_some()), Err(Error::ConnectFailed));
    assert_eq!(backend.get_user(&1).map(|u| u.is_some()), Err(Error::ConnectFailed));
    assert_eq!(
        backend.signup("bob".to_string(), "bob@x.com".to_string(), "pw").map(|u| u.id),
        Err(Error::ConnectFailed)
    );
    backend.pool.set_online(true);
    assert_eq!(backend.authenticate(creds("ann@x.com", "pw")).map(|u| u.is_some()), Ok(true));
    assert!(backend.get_user(&2).unwrap().is_none());
}

#[test]
fn every_call_returns_its_connection() {
    let mut backend = Backend::with_pool_size(2);
    assert_eq!(backend.pool.available(), 2);
    backend.signup("ann".to_string(), "ann@x.com".to_string(), "pw").unwrap();
    assert_eq!(backend.pool.available(), 2);
    let _ = backend.signup("ann".to_string(), "ann@x.com".to_string(), "pw");
    assert_eq!(backend.pool.available(), 2);
    for _ in 0..5 {
        let _ = backend.authenticate(creds("ann@x.com", "pw"));
        let _ = backend.authenticate(creds("ann@x.com", "no"));
        let _ = backend.authenticate(creds("nobody@x.com", "pw"));
        let _ = backend.get_user(&1);
        let _ = backend.get_user(&7);
    }
    assert_eq!(backend.pool.available(), 2);
    assert_eq!(backend.pool.in_use(), 0);
}

#[test]
fn new_backend_is_empty_with_the_default_pool() {
    let mut backend = Backend::new();
    assert_eq!(DEFAULT_POOL_SIZE, 10);
    assert_eq!(backend.pool.capacity(), 10);
    assert_eq!(backend.pool.in_use(), 0);
    assert!(backend.pool.is_online());
    assert!(backend.get_user(&1).unwrap().is_none());
    let mut by_default = Backend::default();
    assert_eq!(by_default.pool.capacity(), 10);
    assert!(by_default.get_user(&1).unwrap().is_none());
}

#[test]
fn grant_needs_a_user_a_hash_and_a_passed_check() {
    let stored = Some("stored".to_string());
    let found = Backend::grant(Some((user(7, "ann"), email_account(1, 7, "ann@x.com", stored.clone()))), true);
    assert_eq!(found.map(|u| (u.id, u.username)), Some((7, "ann".to_string())));
    assert!(Backend::grant(Some((user(7, "ann"), email_account(1, 7, "ann@x.com", stored))), false).is_none());
    assert!(Backend::grant(Some((user(7, "ann"), email_account(1, 7, "ann@x.com", None))), true).is_none());
    assert!(Backend::grant(None, true).is_none());
    assert!(Backend::grant(None, false).is_none());
}

#[test]
fn check_password_verifies_against_the_stored_hash() {
    let decoy = hash("");
    let stored = hash("pw-ann");
    let found = || Some((user(7, "ann"), email_account(1, 7, "ann@x.com", Some(stored.clone()))));
    assert_eq!(Backend::check_password(found(), "pw-ann", &decoy).map(|u| u.id), Some(7));
    assert!(Backend::check_password(found(), "pw-bob", &decoy).is_none());
    assert!(Backend::check_password(found(), "", &decoy).is_none());
    assert!(Backend::check_password(None, "pw-ann", &decoy).is_none());
    assert!(Backend::check_password(None, "", &decoy).is_none());
    let hashless = Some((user(7, "ann"), email_account(1, 7, "ann@x.com", None)));
    assert!(Backend::check_password(hashless, "", &decoy).is_none());
    let malformed = Some((user(7, "ann"), email_account(1, 7, "ann@x.com", Some("pw-ann".to_string()))));
    assert!(Backend::check_password(malformed, "pw-ann", &decoy).is_none());
}

#[test]
fn a_task_that_never_came_back_is_a_dispatch_failure() {
    assert_eq!(dispatched::<i32>(None), Err(Error::DispatchFailed));
    assert_eq!(dispatched(Some(5)), Ok(5));
    assert_eq!(dispatched(Some(Err::<i32, Error>(Error::QueryFailed))), Ok(Err(Error::QueryFailed)));
}
