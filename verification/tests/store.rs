use z3_app::clock::Timestamp;
use z3_app::db::models::accounts::Account;
use z3_app::db::models::users::{Error, User};
use z3_app::db::store::IdentityStore;

#[test]
fn ids_are_issued_serially_from_one() {
    let mut store = IdentityStore::new();
    let at = Timestamp::new(1_700_000_000, 5);
    let a = store.insert_user("ann".to_string(), at).unwrap();
    let b = store.insert_user("bob".to_string(), at).unwrap();
    assert_eq!((a.id, b.id), (1, 2));
    assert_eq!(a.username, "ann");
    assert_eq!(a.created_at, at);
    let x = store.insert_email_account(2, "bob@x.com".to_string(), "h1".to_string()).unwrap();
    let y = store.insert_email_account(1, "ann@x.com".to_string(), "h2".to_string()).unwrap();
    assert_eq!((x.id, x.user_id), (1, 2));
    assert_eq!((y.id, y.user_id), (2, 1));
}

#[test]
fn insert_user_refuses_a_taken_name() {
    let mut store = IdentityStore::new();
    let at = Timestamp::new(0, 0);
    store.insert_user("ann".to_string(), at).unwrap();
    assert_eq!(store.insert_user("ann".to_string(), at).map(|u| u.id), Err(Error::DuplicateUsername));
    assert!(store.find_user_by_id(2).is_none());
    assert_eq!(store.insert_user("Ann".to_string(), at).map(|u| u.id), Ok(2));
}

#[test]
fn an_account_needs_its_user() {
    let mut store = IdentityStore::new();
    let refused = store.insert_email_account(1, "ann@x.com".to_string(), "h".to_string());
    assert_eq!(refused.map(|a| a.id), Err(Error::QueryFailed));
    assert!(store.find_email_account("ann@x.com").is_none());
    store.insert_user("ann".to_string(), Timestamp::new(0, 0)).unwrap();
    let written = store.insert_email_account(1, "ann@x.com".to_string(), "h".to_string()).unwrap();
    assert_eq!(written.id, 1);
    assert_eq!(store.insert_email_account(2, "x@x.com".to_string(), "h".to_string()).map(|a| a.id), Err(Error::QueryFailed));
}

#[test]
fn an_email_account_carries_address_and_hash_only() {
    let mut store = IdentityStore::new();
    store.insert_user("ann".to_string(), Timestamp::new(0, 0)).unwrap();
    let account = store.insert_email_account(1, "ann@x.com".to_string(), "the-hash".to_string()).unwrap();
    assert_eq!(account.type_, "email");
    assert_eq!(account.email.as_deref(), Some("ann@x.com"));
    assert_eq!(account.password.as_deref(), Some("the-hash"));
    assert!(account.provider.is_none() && account.provider_account_id.is_none());
    assert!(account.refresh_token.is_none() && account.access_token.is_none());
    assert!(account.expires_at.is_none() && account.token_type.is_none());
    assert!(account.scope.is_none() && account.id_token.is_none());
    assert!(account.session_state.is_none() && account.refresh_token_expires_in.is_none());
    assert!(account.is_well_formed());
}

#[test]
fn lookup_by_email_joins_the_owner() {
    let mut store = IdentityStore::new();
    let at = Timestamp::new(0, 0);
    store.insert_user("ann".to_string(), at).unwrap();
    store.insert_user("bob".to_string(), at).unwrap();
    store.insert_email_account(2, "bob@x.com".to_string(), "hb".to_string()).unwrap();
    store.insert_email_account(1, "ann@x.com".to_string(), "ha".to_string()).unwrap();
    let (user, account) = store.find_user_and_email_account_by_email("ann@x.com").unwrap();
    assert_eq!((user.id, user.username.as_str()), (1, "ann"));
    assert_eq!((account.id, account.user_id), (2, 1));
    assert_eq!(account.password.as_deref(), Some("ha"));
    let (user, account) = store.find_user_and_email_account_by_email("bob@x.com").unwrap();
    assert_eq!((user.id, account.id), (2, 1));
    assert!(store.find_user_and_email_account_by_email("cy@x.com").is_none());
    assert!(store.find_user_and_email_account_by_email("").is_none());
}

#[test]
fn lookup_by_email_finds_the_first_written() {
    let mut store = IdentityStore::new();
    let at = Timestamp::new(0, 0);
    store.insert_user("ann".to_string(), at).unwrap();
    store.insert_user("bob".to_string(), at).unwrap();
    store.insert_email_account(2, "same@x.com".to_string(), "hb".to_string()).unwrap();
    store.insert_email_account(1, "same@x.com".to_string(), "ha".to_string()).unwrap();
    let (user, account) = store.find_user_and_email_account_by_email("same@x.com").unwrap();
    assert_eq!((user.id, account.id), (2, 1));
    assert_eq!(Account::find_by_email(&store, "same@x.com").map(|a| a.id), Some(1));
}

#[test]
fn find_user_by_id_finds_exactly_the_written() {
    let mut store = IdentityStore::new();
    assert!(store.find_user_by_id(1).is_none());
    store.insert_user("ann".to_string(), Timestamp::new(9, 1)).unwrap();
    let found = store.find_user_by_id(1).unwrap();
    assert_eq!((found.id, found.username.as_str(), found.created_at), (1, "ann", Timestamp::new(9, 1)));
    assert!(store.find_user_by_id(0).is_none());
    assert!(store.find_user_by_id(2).is_none());
    assert!(store.find_user_by_id(-1).is_none());
}

#[test]
fn signup_insert_writes_both_rows_or_neither() {
    let mut store = IdentityStore::new();
    let at = Timestamp::new(0, 0);
    let (user, account) = store
        .insert_user_with_email_account("ann".to_string(), at, "ann@x.com".to_string(), "h".to_string())
        .unwrap();
    assert_eq!((user.id, account.id, account.user_id), (1, 1, 1));
    let refused = store.insert_user_with_email_account("ann".to_string(), at, "two@x.com".to_string(), "h".to_string());
    assert_eq!(refused.map(|(u, _)| u.id), Err(Error::DuplicateUsername));
    assert!(store.find_email_account("two@x.com").is_none());
    assert!(store.find_user_by_id(2).is_none());
}

#[test]
fn user_create_stamps_the_current_time() {
    let mut store = IdentityStore::new();
    let user = User::create(&mut store, "ann".to_string()).unwrap();
    assert_eq!((user.id, user.username.as_str()), (1, "ann"));
    assert!(user.created_at.secs > 1_600_000_000, "the clock reads a time after 2020");
    assert!(user.created_at.nanos < 1_000_000_000);
    assert_eq!(User::create(&mut store, "ann".to_string()).map(|u| u.id), Err(Error::DuplicateUsername));
    let stored = store.find_user_by_id(1).unwrap();
    assert_eq!(stored.created_at, user.created_at);
}

#[test]
fn create_email_account_writes_through_the_store() {
    let mut store = IdentityStore::new();
    assert_eq!(
        Account::create_email_account(&mut store, 1, "ann@x.com".to_string(), "h".to_string()).map(|a| a.id),
        Err(Error::QueryFailed)
    );
    User::create(&mut store, "ann".to_string()).unwrap();
    let account = Account::create_email_account(&mut store, 1, "ann@x.com".to_string(), "h".to_string()).unwrap();
    assert_eq!((account.id, account.user_id), (1, 1));
    assert_eq!(Account::find_by_email(&store, "ann@x.com").map(|a| a.id), Some(1));
    assert!(Account::find_by_email(&store, "bob@x.com").is_none());
}
