//! Users, the credentials they sign in with, and the errors that signing in
//! can end with.

use crate::clock::{now, Timestamp};
use crate::db::models::accounts::{Account, AccountView};
use crate::db::pool::{Connection, ConnectionPool, PoolView};
use crate::db::store::{IdentityStore, StoreView};
use crate::hasher::{accepts, hash, verify, MAX_PLAINTEXT_LEN};
use vstd::prelude::*;
use vstd::utf8::encode_utf8;

verus! {

/// Core user entity: who somebody is, independent of how they sign in.
#[derive(Debug)]
pub struct User {
    pub id: i32,
    pub username: String,
    pub created_at: Timestamp,
}

/// A user as contracts speak of one.
pub struct UserView {
    pub id: i32,
    pub username: Seq<char>,
    pub created_at: Timestamp,
}

impl View for User {
    type V = UserView;

    open spec fn view(&self) -> UserView {
        UserView { id: self.id, username: self.username@, created_at: self.created_at }
    }
}

impl DeepView for User {
    type V = UserView;

    open spec fn deep_view(&self) -> UserView {
        self@
    }
}

impl Clone for User {
    fn clone(&self) -> (copy: Self)
        ensures
            copy == *self,
    {
        User { id: self.id, username: self.username.clone(), created_at: self.created_at }
    }
}

impl User {
    /// The key under which a session remembers this user.
    pub fn id(&self) -> (id: i32)
        ensures
            id == self.id,
    {
        self.id
    }

    /// Writes a new user named `username` to `store`, created now. Fails
    /// with `DuplicateUsername` if the name is taken, and with `QueryFailed`
    /// if the ids have run out; the store is then unchanged.
    pub fn create(store: &mut IdentityStore, username: String) -> (written: Result<User, Error>)
        requires
            old(store).wf(),
        ensures
            final(store).wf(),
            match written {
                Ok(user) => {
                    &&& old(store)@.user_fault(username@) is None
                    &&& user@ == old(store)@.next_user(username@, user.created_at)
                    &&& user.created_at.secs >= 0
                    &&& user.created_at.nanos < 1_000_000_000
                    &&& final(store)@ == old(store)@.with_user(user@)
                },
                Err(fault) => {
                    &&& old(store)@.user_fault(username@) == Some(fault)
                    &&& final(store)@ == old(store)@
                },
            },
    {
        store.insert_user(username, now())
    }

    /// The bytes a session is bound to: the user name in UTF-8. A session
    /// made for one name is void once the name has changed.
    pub fn session_auth_hash(&self) -> (bytes: &[u8])
        ensures
            bytes@ == encode_utf8(self.username@),
    {
        self.username.as_str().as_bytes()
    }
}

/// A session of the session layer. The backend never reads one; the record
/// is kept for the layers that do.
#[derive(Debug)]
pub struct Session {
    pub id: String,
    pub session_token: String,
    pub user_id: i32,
    pub expires: Timestamp,
}

impl Clone for Session {
    fn clone(&self) -> (copy: Self)
        ensures
            copy == *self,
    {
        Session {
            id: self.id.clone(),
            session_token: self.session_token.clone(),
            user_id: self.user_id,
            expires: self.expires,
        }
    }
}

/// A verification token, keyed by identifier and token. Reserved: no
/// operation of the backend reads or writes one.
#[derive(Debug)]
pub struct VerificationToken {
    pub identifier: String,
    pub token: String,
    pub expires: Timestamp,
}

impl Clone for VerificationToken {
    fn clone(&self) -> (copy: Self)
        ensures
            copy == *self,
    {
        VerificationToken {
            identifier: self.identifier.clone(),
            token: self.token.clone(),
            expires: self.expires,
        }
    }
}

/// What a login form submits.
#[derive(Debug)]
pub struct Credentials {
    pub email: String,
    pub password: String,
    pub next: Option<String>,
}

impl Clone for Credentials {
    fn clone(&self) -> (copy: Self)
        ensures
            copy == *self,
    {
        Credentials {
            email: self.email.clone(),
            password: self.password.clone(),
            next: self.next.clone(),
        }
    }
}

/// The answer of a task that was sent to run elsewhere: what it came back
/// with, or `DispatchFailed` if it never came back.
pub fn dispatched<T>(outcome: Option<T>) -> (answer: Result<T, Error>)
    ensures
        answer == match outcome {
            Some(value) => Ok::<T, Error>(value),
            None => Err(Error::DispatchFailed),
        },
{
    match outcome {
        Some(value) => Ok(value),
        None => Err(Error::DispatchFailed),
    }
}

/// The ways an operation of the backend can fail. That credentials do not
/// match, or that no account answers to an email, is none of them: those are
/// successful answers.
#[derive(Debug, Clone, Copy, PartialEq, Eq, Structural)]
pub enum Error {
    /// Every connection of the pool is checked out.
    PoolExhausted,
    /// The pool could not open a connection to the store.
    ConnectFailed,
    /// The store refused or lost a query.
    QueryFailed,
    /// The blocking task that ran the query did not run to completion.
    DispatchFailed,
    /// The user name asked for at signup is already taken.
    DuplicateUsername,
}

/// The user that a sign-in is granted to: the one found for the address,
/// where the password was verified against the hash of the account found
/// with it.
pub open spec fn granted(found: Option<(UserView, AccountView)>, verified: bool) -> Option<
    UserView,
> {
    match found {
        Some((user, account)) => if account.password is Some && verified {
            Some(user)
        } else {
            None
        },
        None => None,
    }
}

/// Whether `password` verifies against the hash of the account found, if
/// one was found and holds a hash.
pub open spec fn verifies(found: Option<(UserView, AccountView)>, password: Seq<char>) -> bool {
    match found {
        Some((_, account)) => match account.password {
            Some(stored) => accepts(password, stored),
            None => false,
        },
        None => false,
    }
}

/// What `authenticate` answers for a pool and a store in a given state.
pub open spec fn authenticate_answer(
    pool: PoolView,
    store: StoreView,
    email: Seq<char>,
    password: Seq<char>,
) -> Result<Option<UserView>, Error> {
    match pool.checkout_fault() {
        Some(fault) => Err(fault),
        None => {
            let found = store.find_by_email(email);
            Ok(granted(found, verifies(found, password)))
        },
    }
}

/// What `get_user` answers for a pool and a store in a given state.
pub open spec fn get_user_answer(pool: PoolView, store: StoreView, id: i32) -> Result<
    Option<UserView>,
    Error,
> {
    match pool.checkout_fault() {
        Some(fault) => Err(fault),
        None => Ok(store.user_by_id(id)),
    }
}

/// Why a signup is refused, if it is.
pub open spec fn signup_fault(pool: PoolView, store: StoreView, username: Seq<char>) -> Option<
    Error,
> {
    match pool.checkout_fault() {
        Some(fault) => Some(fault),
        None => store.signup_fault(username),
    }
}

/// The number of connections of a backend made by `Backend::new`.
pub const DEFAULT_POOL_SIZE: usize = 10;

/// The authentication backend: the store of identities, the pool that
/// meters access to it, and a hash that stands in for a stored one when a
/// sign-in names an address that no account answers to. The constructors
/// make that hash from the empty password.
pub struct Backend {
    pub db: IdentityStore,
    pub pool: ConnectionPool,
    pub decoy: String,
}

impl Default for Backend {
    fn default() -> (backend: Backend)
        ensures
            backend.wf(),
            backend.db@ == StoreView::empty(),
            backend.pool@ == (PoolView {
                capacity: DEFAULT_POOL_SIZE as nat,
                in_use: 0,
                online: true,
            }),
            accepts(""@, backend.decoy@),
    {
        Backend::new()
    }
}

impl Backend {
    /// The store and the pool are both in order.
    pub open spec fn wf(&self) -> bool {
        self.db.wf() && self.pool.wf()
    }

    /// A backend over an empty store, with a pool of `DEFAULT_POOL_SIZE`
    /// connections.
    pub fn new() -> (backend: Backend)
        ensures
            backend.wf(),
            backend.db@ == StoreView::empty(),
            backend.pool@ == (PoolView {
                capacity: DEFAULT_POOL_SIZE as nat,
                in_use: 0,
                online: true,
            }),
            accepts(""@, backend.decoy@),
    {
        Backend::with_pool_size(DEFAULT_POOL_SIZE)
    }

    /// A backend over an empty store, with a pool of `capacity`
    /// connections.
    pub fn with_pool_size(capacity: usize) -> (backend: Backend)
        ensures
            backend.wf(),
            backend.db@ == StoreView::empty(),
            backend.pool@ == (PoolView { capacity: capacity as nat, in_use: 0, online: true }),
            accepts(""@, backend.decoy@),
    {
        proof {
            reveal_strlit("");
            assert(encode_utf8(""@) =~= Seq::<u8>::empty());
        }
        Backend { db: IdentityStore::new(), pool: ConnectionPool::new(capacity), decoy: hash("") }
    }

    /// Settles a sign-in once the password has been checked: the user found
    /// for the address if the account found with it holds a hash and the
    /// check passed, and nobody otherwise.
    pub fn grant(found: Option<(User, Account)>, verified: bool) -> (user: Option<User>)
        ensures
            user.deep_view() == granted(found.deep_view(), verified),
    {
        match found {
            Some((user, account)) => if account.password.is_some() && verified {
                Some(user)
            } else {
                None
            },
            None => None,
        }
    }

    /// Settles a sign-in from what the lookup by address found. The
    /// password is verified once on every path: against the stored hash
    /// where there is one, and against `decoy` where there is none, so that
    /// an address without an account costs as much as a wrong password.
    pub fn check_password(found: Option<(User, Account)>, password: &str, decoy: &str) -> (user:
        Option<User>)
        ensures
            user.deep_view() == granted(
                found.deep_view(),
                verifies(found.deep_view(), password@),
            ),
    {
        let verified = match &found {
            Some((_, account)) => match &account.password {
                Some(stored) => verify(password, stored.as_str()),
                None => {
                    let _ = verify(password, decoy);
                    false
                },
            },
            None => {
                let _ = verify(password, decoy);
                false
            },
        };
        Backend::grant(found, verified)
    }

    /// Resolves credentials to a user. `Ok(None)` says that the sign-in is
    /// refused, and does not say whether the address or the password was
    /// wrong. An error says that the question could not be put to the store.
    /// The connection used is back in the pool when the call returns.
    pub fn authenticate(&mut self, creds: Credentials) -> (answer: Result<Option<User>, Error>)
        requires
            old(self).wf(),
        ensures
            final(self).wf(),
            final(self).db@ == old(self).db@,
            final(self).pool@ == old(self).pool@,
            final(self).decoy == old(self).decoy,
            match answer {
                Ok(user) => Ok::<Option<UserView>, Error>(user.deep_view()),
                Err(fault) => Err(fault),
            } == authenticate_answer(old(self).pool@, old(self).db@, creds.email@, creds.password@),
    {
        let db = &self.db;
        let email = creds.email.as_str();
        let lookup = |connection: &Connection| -> (found: Option<(User, Account)>)
            ensures
                found.deep_view() == db@.find_by_email(email@),
            { db.find_user_and_email_account_by_email(email) };
        match self.pool.with_connection(lookup) {
            Ok(found) => Ok(
                Backend::check_password(found, creds.password.as_str(), self.decoy.as_str()),
            ),
            Err(fault) => Err(fault),
        }
    }

    /// Resolves an id to a user, as a session does on every request. Reads
    /// only; the connection used is back in the pool when the call returns.
    pub fn get_user(&mut self, user_id: &i32) -> (answer: Result<Option<User>, Error>)
        requires
            old(self).wf(),
        ensures
            final(self).wf(),
            final(self).db@ == old(self).db@,
            final(self).pool@ == old(self).pool@,
            final(self).decoy == old(self).decoy,
            match answer {
                Ok(user) => Ok::<Option<UserView>, Error>(user.deep_view()),
                Err(fault) => Err(fault),
            } == get_user_answer(old(self).pool@, old(self).db@, *user_id),
    {
        let db = &self.db;
        let id = *user_id;
        let lookup = |connection: &Connection| -> (found: Option<User>)
            ensures
                found.deep_view() == db@.user_by_id(id),
            { db.find_user_by_id(id) };
        self.pool.with_connection(lookup)
    }

    /// Signs a user up: hashes the password and writes the user and its
    /// email account, both or neither. On an error the store is unchanged.
    /// The connection used is back in the pool when the call returns.
    pub fn signup(&mut self, username: String, email: String, password: &str) -> (answer: Result<
        User,
        Error,
    >)
        requires
            old(self).wf(),
            password.len() <= MAX_PLAINTEXT_LEN,
        ensures
            final(self).wf(),
            final(self).pool@ == old(self).pool@,
            final(self).decoy == old(self).decoy,
            match answer {
                Ok(user) => {
                    &&& signup_fault(old(self).pool@, old(self).db@, username@) is None
                    &&& user@ == old(self).db@.next_user(username@, user.created_at)
                    &&& user.created_at.secs >= 0
                    &&& user.created_at.nanos < 1_000_000_000
                    &&& exists|stored: Seq<char>|
                        {
                            &&& accepts(password@, stored)
                            &&& final(self).db@ == #[trigger] old(self).db@.signed_up(
                                username@,
                                user.created_at,
                                email@,
                                stored,
                            )
                        }
                },
                Err(fault) => {
                    &&& signup_fault(old(self).pool@, old(self).db@, username@) == Some(fault)
                    &&& final(self).db@ == old(self).db@
                },
            },
    {
        let connection = match self.pool.checkout() {
            Ok(connection) => connection,
            Err(fault) => {
                return Err(fault);
            },
        };
        let stored = hash(password);
        let created_at = now();
        let ghost witness = stored@;
        let written = self.db.insert_user_with_email_account(username, created_at, email, stored);
        self.pool.checkin(connection);
        match written {
            Ok((user, _)) => {
                assert(self.db@ == old(self).db@.signed_up(
                    username@,
                    user.created_at,
                    email@,
                    witness,
                ));
                Ok(user)
            },
            Err(fault) => Err(fault),
        }
    }
}

} // verus!
