//! The identity store: the users table and the accounts table, with the
//! four queries that the authentication backend runs against them.
//!
//! Ids are issued serially, starting at 1. User names are unique. Every
//! account belongs to a user of the store. Email addresses are not unique:
//! where several accounts answer to one address, the first that was written
//! is the one a lookup finds.

use crate::clock::Timestamp;
use crate::db::models::accounts::{Account, AccountView, NewAccount};
use crate::db::models::users::{Error, User, UserView};
use vstd::prelude::*;

verus! {

/// The two tables, and the last id issued for each.
pub struct IdentityStore {
    users: Vec<User>,
    accounts: Vec<Account>,
    last_user_id: i32,
    last_account_id: i32,
}

/// The store as contracts speak of it: the rows in the order in which they
/// were written.
pub struct StoreView {
    pub users: Seq<UserView>,
    pub accounts: Seq<AccountView>,
    pub last_user_id: i32,
    pub last_account_id: i32,
}

impl StoreView {
    /// The store before anything was written.
    pub open spec fn empty() -> StoreView {
        StoreView { users: Seq::empty(), accounts: Seq::empty(), last_user_id: 0, last_account_id: 0 }
    }

    /// Row `i` of the users table has the id `id`.
    pub open spec fn user_at(self, i: int, id: i32) -> bool {
        0 <= i < self.users.len() && self.users[i].id == id
    }

    /// Some user has the id `id`.
    pub open spec fn has_user(self, id: i32) -> bool {
        exists|i: int| self.user_at(i, id)
    }

    /// Some user has the name `username`.
    pub open spec fn username_taken(self, username: Seq<char>) -> bool {
        exists|i: int| 0 <= i < self.users.len() && self.users[i].username == username
    }

    /// The user with the id `id`.
    pub open spec fn user_by_id(self, id: i32) -> Option<UserView> {
        if self.has_user(id) {
            Some(self.users[choose|i: int| self.user_at(i, id)])
        } else {
            None
        }
    }

    /// Row `i` of the accounts table answers to `email`.
    pub open spec fn answers_at(self, i: int, email: Seq<char>) -> bool {
        0 <= i < self.accounts.len() && self.accounts[i].answers_to(email)
    }

    /// Row `i` is the first row of the accounts table that answers to
    /// `email`.
    pub open spec fn first_answer_at(self, i: int, email: Seq<char>) -> bool {
        self.answers_at(i, email) && forall|j: int| 0 <= j < i ==> !self.answers_at(j, email)
    }

    /// Some account answers to `email`.
    pub open spec fn has_email(self, email: Seq<char>) -> bool {
        exists|i: int| self.answers_at(i, email)
    }

    /// The account that a sign-in by `email` is checked against.
    pub open spec fn account_by_email(self, email: Seq<char>) -> Option<AccountView> {
        if self.has_email(email) {
            Some(self.accounts[choose|i: int| self.first_answer_at(i, email)])
        } else {
            None
        }
    }

    /// The account that a sign-in by `email` is checked against, joined to
    /// the user it belongs to.
    pub open spec fn find_by_email(self, email: Seq<char>) -> Option<(UserView, AccountView)> {
        match self.account_by_email(email) {
            Some(account) => match self.user_by_id(account.user_id) {
                Some(user) => Some((user, account)),
                None => None,
            },
            None => None,
        }
    }

    /// Why the store refuses a new user named `username`, if it does: the
    /// name is taken, or, failing that, the ids have run out.
    pub open spec fn user_fault(self, username: Seq<char>) -> Option<Error> {
        if self.username_taken(username) {
            Some(Error::DuplicateUsername)
        } else if self.last_user_id == i32::MAX {
            Some(Error::QueryFailed)
        } else {
            None
        }
    }

    /// The row that the store writes for a new user.
    pub open spec fn next_user(self, username: Seq<char>, created_at: Timestamp) -> UserView {
        UserView { id: (self.last_user_id + 1) as i32, username, created_at }
    }

    /// The store once `user` is written.
    pub open spec fn with_user(self, user: UserView) -> StoreView {
        StoreView { users: self.users.push(user), last_user_id: user.id, ..self }
    }

    /// Why the store refuses a new account for `user_id`, if it does: there
    /// is no such user, or the ids have run out.
    pub open spec fn account_fault(self, user_id: i32) -> Option<Error> {
        if !self.has_user(user_id) || self.last_account_id == i32::MAX {
            Some(Error::QueryFailed)
        } else {
            None
        }
    }

    /// The row that the store writes for a new email account.
    pub open spec fn next_email_account(
        self,
        user_id: i32,
        email: Seq<char>,
        password_hash: Seq<char>,
    ) -> AccountView {
        AccountView::email_account((self.last_account_id + 1) as i32, user_id, email, password_hash)
    }

    /// The store once `account` is written.
    pub open spec fn with_account(self, account: AccountView) -> StoreView {
        StoreView { accounts: self.accounts.push(account), last_account_id: account.id, ..self }
    }

    /// Why the store refuses a signup under `username`, if it does: the
    /// user is refused, or the ids for accounts have run out.
    pub open spec fn signup_fault(self, username: Seq<char>) -> Option<Error> {
        if self.user_fault(username) is Some {
            self.user_fault(username)
        } else if self.last_account_id == i32::MAX {
            Some(Error::QueryFailed)
        } else {
            None
        }
    }

    /// The store once a user named `username` and the email account it
    /// signs in with are both written.
    pub open spec fn signed_up(
        self,
        username: Seq<char>,
        created_at: Timestamp,
        email: Seq<char>,
        password_hash: Seq<char>,
    ) -> StoreView {
        let user = self.next_user(username, created_at);
        self.with_user(user).with_account(self.next_email_account(user.id, email, password_hash))
    }

    /// The constraints of the two tables.
    pub open spec fn wf(self) -> bool {
        &&& 0 <= self.last_user_id
        &&& 0 <= self.last_account_id
        &&& forall|i: int|
            0 <= i < self.users.len() ==> 1 <= (#[trigger] self.users[i]).id <= self.last_user_id
        &&& forall|i: int, j: int|
            0 <= i < j < self.users.len() ==> (#[trigger] self.users[i]).id < (
            #[trigger] self.users[j]).id
        &&& forall|i: int, j: int|
            0 <= i < j < self.users.len() ==> (#[trigger] self.users[i]).username != (
            #[trigger] self.users[j]).username
        &&& forall|i: int|
            0 <= i < self.accounts.len() ==> {
                &&& 1 <= (#[trigger] self.accounts[i]).id <= self.last_account_id
                &&& self.accounts[i].wf()
                &&& self.has_user(self.accounts[i].user_id)
            }
        &&& forall|i: int, j: int|
            0 <= i < j < self.accounts.len() ==> (#[trigger] self.accounts[i]).id < (
            #[trigger] self.accounts[j]).id
    }
}

impl View for IdentityStore {
    type V = StoreView;

    closed spec fn view(&self) -> StoreView {
        StoreView {
            users: self.users.deep_view(),
            accounts: self.accounts.deep_view(),
            last_user_id: self.last_user_id,
            last_account_id: self.last_account_id,
        }
    }
}

impl IdentityStore {
    /// The constraints of the two tables hold.
    pub open spec fn wf(&self) -> bool {
        self@.wf()
    }

    /// A store with no rows.
    pub fn new() -> (store: IdentityStore)
        ensures
            store@ == StoreView::empty(),
            store.wf(),
    {
        let store = IdentityStore {
            users: Vec::new(),
            accounts: Vec::new(),
            last_user_id: 0,
            last_account_id: 0,
        };
        assert(store@.users =~= Seq::empty());
        assert(store@.accounts =~= Seq::empty());
        store
    }

    /// The user with the id `id`, if there is one.
    pub fn find_user_by_id(&self, id: i32) -> (found: Option<User>)
        requires
            self.wf(),
        ensures
            found.deep_view() == self@.user_by_id(id),
    {
        let mut i: usize = 0;
        while i < self.users.len()
            invariant
                self.wf(),
                i <= self.users.len(),
                forall|k: int| 0 <= k < i ==> !self@.user_at(k, id),
            decreases self.users.len() - i,
        {
            if self.users[i].id == id {
                proof {
                    assert(self@.user_at(i as int, id));
                    let k = choose|k: int| self@.user_at(k, id);
                    assert(self@.user_at(k, id));
                    assert(k == i);
                }
                return Some(self.users[i].clone());
            }
            i += 1;
        }
        None
    }

    /// The account that a sign-in by `email` is checked against: the first
    /// email account written for that address that holds a password hash.
    pub fn find_email_account(&self, email: &str) -> (found: Option<Account>)
        ensures
            found.deep_view() == self@.account_by_email(email@),
    {
        let mut i: usize = 0;
        while i < self.accounts.len()
            invariant
                i <= self.accounts.len(),
                forall|k: int| 0 <= k < i ==> !self@.answers_at(k, email@),
            decreases self.accounts.len() - i,
        {
            if self.accounts[i].answers_to(email) {
                proof {
                    assert(self@.answers_at(i as int, email@));
                    assert(self@.first_answer_at(i as int, email@));
                    let k = choose|k: int| self@.first_answer_at(k, email@);
                    assert(self@.first_answer_at(k, email@));
                    assert(k == i);
                }
                return Some(self.accounts[i].clone());
            }
            i += 1;
        }
        None
    }

    /// The account that a sign-in by `email` is checked against, joined to
    /// the user it belongs to.
    pub fn find_user_and_email_account_by_email(&self, email: &str) -> (found: Option<
        (User, Account),
    >)
        requires
            self.wf(),
        ensures
            found.deep_view() == self@.find_by_email(email@),
    {
        match self.find_email_account(email) {
            Some(account) => match self.find_user_by_id(account.user_id) {
                Some(user) => Some((user, account)),
                None => None,
            },
            None => None,
        }
    }

    /// Whether some user has the name `username`.
    fn username_taken(&self, username: &String) -> (taken: bool)
        ensures
            taken == self@.username_taken(username@),
    {
        let mut i: usize = 0;
        while i < self.users.len()
            invariant
                i <= self.users.len(),
                forall|k: int| 0 <= k < i ==> self@.users[k].username != username@,
            decreases self.users.len() - i,
        {
            if self.users[i].username == *username {
                assert(self@.users[i as int].username == username@);
                return true;
            }
            i += 1;
        }
        false
    }

    /// Writes a user named `username`, created at `created_at`, and gives
    /// it the next id. Fails with `DuplicateUsername` if the name is taken,
    /// and with `QueryFailed` if the ids have run out; the store is then
    /// unchanged.
    pub fn insert_user(&mut self, username: String, created_at: Timestamp) -> (written: Result<
        User,
        Error,
    >)
        requires
            old(self).wf(),
        ensures
            final(self).wf(),
            match written {
                Ok(user) => {
                    &&& old(self)@.user_fault(username@) is None
                    &&& user@ == old(self)@.next_user(username@, created_at)
                    &&& final(self)@ == old(self)@.with_user(user@)
                },
                Err(fault) => {
                    &&& old(self)@.user_fault(username@) == Some(fault)
                    &&& final(self)@ == old(self)@
                },
            },
    {
        if self.username_taken(&username) {
            return Err(Error::DuplicateUsername);
        }
        if self.last_user_id == i32::MAX {
            return Err(Error::QueryFailed);
        }
        let id: i32 = self.last_user_id + 1;
        let user = User { id, username, created_at };
        let copy = user.clone();
        self.users.push(user);
        self.last_user_id = id;
        proof {
            let before = old(self)@;
            let after = self@;
            assert(after.users =~= before.users.push(copy@));
            assert(after.accounts =~= before.accounts);
            assert(after == before.with_user(copy@));
            lemma_with_user_keeps_wf(before, username@, created_at);
        }
        Ok(copy)
    }

    /// Writes an email account for the user `user_id`, with the address
    /// `email` and the password hash `password_hash`, and gives it the next
    /// id. Fails with `QueryFailed` if there is no such user or the ids have
    /// run out; the store is then unchanged.
    pub fn insert_email_account(
        &mut self,
        user_id: i32,
        email: String,
        password_hash: String,
    ) -> (written: Result<Account, Error>)
        requires
            old(self).wf(),
        ensures
            final(self).wf(),
            match written {
                Ok(account) => {
                    &&& old(self)@.account_fault(user_id) is None
                    &&& account@ == old(self)@.next_email_account(
                        user_id,
                        email@,
                        password_hash@,
                    )
                    &&& final(self)@ == old(self)@.with_account(account@)
                },
                Err(fault) => {
                    &&& old(self)@.account_fault(user_id) == Some(fault)
                    &&& final(self)@ == old(self)@
                },
            },
    {
        if self.find_user_by_id(user_id).is_none() || self.last_account_id == i32::MAX {
            return Err(Error::QueryFailed);
        }
        let id: i32 = self.last_account_id + 1;
        let account = NewAccount::email(user_id, email, password_hash).into_account(id);
        let copy = account.clone();
        self.accounts.push(account);
        self.last_account_id = id;
        proof {
            let before = old(self)@;
            let after = self@;
            assert(after.accounts =~= before.accounts.push(copy@));
            assert(after.users =~= before.users);
            assert(copy@ == before.next_email_account(user_id, email@, password_hash@));
            assert(after == before.with_account(copy@));
            lemma_with_account_keeps_wf(before, user_id, email@, password_hash@);
        }
        Ok(copy)
    }

    /// Writes a user and the email account it signs in with, both or
    /// neither. Fails as `insert_user` does, and with `QueryFailed` if the
    /// ids for accounts have run out; the store is then unchanged.
    pub fn insert_user_with_email_account(
        &mut self,
        username: String,
        created_at: Timestamp,
        email: String,
        password_hash: String,
    ) -> (written: Result<(User, Account), Error>)
        requires
            old(self).wf(),
        ensures
            final(self).wf(),
            match written {
                Ok((user, account)) => {
                    &&& old(self)@.signup_fault(username@) is None
                    &&& user@ == old(self)@.next_user(username@, created_at)
                    &&& account@ == old(self)@.next_email_account(
                        user.id,
                        email@,
                        password_hash@,
                    )
                    &&& final(self)@ == old(self)@.signed_up(
                        username@,
                        created_at,
                        email@,
                        password_hash@,
                    )
                },
                Err(fault) => {
                    &&& old(self)@.signup_fault(username@) == Some(fault)
                    &&& final(self)@ == old(self)@
                },
            },
    {
        if self.last_account_id == i32::MAX {
            return if self.username_taken(&username) {
                Err(Error::DuplicateUsername)
            } else {
                Err(Error::QueryFailed)
            };
        }
        proof {
            if old(self)@.user_fault(username@) is None {
                lemma_signed_up_keeps_wf(old(self)@, username@, created_at, email@, password_hash@);
            }
        }
        let user = match self.insert_user(username, created_at) {
            Ok(user) => user,
            Err(fault) => {
                return Err(fault);
            },
        };
        match self.insert_email_account(user.id, email, password_hash) {
            Ok(account) => Ok((user, account)),
            Err(fault) => Err(fault),
        }
    }
}

/// A signup that the store accepts writes a user and an account of that
/// user, and leaves the constraints of the tables in force.
pub proof fn lemma_signed_up_keeps_wf(
    store: StoreView,
    username: Seq<char>,
    created_at: Timestamp,
    email: Seq<char>,
    password_hash: Seq<char>,
)
    requires
        store.wf(),
        store.signup_fault(username) is None,
    ensures
        store.signed_up(username, created_at, email, password_hash).wf(),
        store.with_user(store.next_user(username, created_at)).account_fault(
            store.next_user(username, created_at).id,
        ) is None,
{
    let user = store.next_user(username, created_at);
    let middle = store.with_user(user);
    lemma_with_user_keeps_wf(store, username, created_at);
    assert(middle.user_at(store.users.len() as int, user.id));
    lemma_with_account_keeps_wf(middle, user.id, email, password_hash);
}

/// A user that the store accepts leaves the constraints of the tables in
/// force.
pub proof fn lemma_with_user_keeps_wf(store: StoreView, username: Seq<char>, created_at: Timestamp)
    requires
        store.wf(),
        store.user_fault(username) is None,
    ensures
        store.with_user(store.next_user(username, created_at)).wf(),
{
    let user = store.next_user(username, created_at);
    let after = store.with_user(user);
    assert forall|i: int| 0 <= i < after.accounts.len() implies after.has_user(
        (#[trigger] after.accounts[i]).user_id,
    ) by {
        let owner = after.accounts[i].user_id;
        assert(store.has_user(store.accounts[i].user_id));
        let k = choose|k: int| store.user_at(k, owner);
        assert(after.user_at(k, owner));
    }
}

/// An email account that the store accepts leaves the constraints of the
/// tables in force.
pub proof fn lemma_with_account_keeps_wf(
    store: StoreView,
    user_id: i32,
    email: Seq<char>,
    password_hash: Seq<char>,
)
    requires
        store.wf(),
        store.account_fault(user_id) is None,
    ensures
        store.with_account(store.next_email_account(user_id, email, password_hash)).wf(),
{
    let account = store.next_email_account(user_id, email, password_hash);
    let after = store.with_account(account);
    assert forall|i: int| 0 <= i < after.accounts.len() implies {
        &&& 1 <= (#[trigger] after.accounts[i]).id <= after.last_account_id
        &&& after.accounts[i].wf()
        &&& after.has_user(after.accounts[i].user_id)
    } by {
        let owner = after.accounts[i].user_id;
        if i < store.accounts.len() {
            assert(after.accounts[i] == store.accounts[i]);
            assert(store.has_user(owner));
        }
        let k = choose|k: int| store.user_at(k, owner);
        assert(after.user_at(k, owner));
    }
}

} // verus!
