//! Accounts: the credential records through which a user signs in.

use crate::db::models::users::Error;
use crate::db::store::IdentityStore;
use crate::text::same_text;
use vstd::prelude::*;

verus! {

/// One way for a user to authenticate.
///
/// `type_` says which: `"email"` for an email address and a password, or
/// `"oauth"`, which is reserved and has no code path yet. An email account
/// carries `email` and `password` (the stored hash, never the plaintext) and
/// none of the provider fields; a reserved account carries neither of the
/// two.
#[derive(Debug)]
pub struct Account {
    pub id: i32,
    pub user_id: i32,
    pub type_: String,
    pub email: Option<String>,
    pub password: Option<String>,
    pub provider: Option<String>,
    pub provider_account_id: Option<String>,
    pub refresh_token: Option<String>,
    pub access_token: Option<String>,
    pub expires_at: Option<i32>,
    pub token_type: Option<String>,
    pub scope: Option<String>,
    pub id_token: Option<String>,
    pub session_state: Option<String>,
    pub refresh_token_expires_in: Option<i32>,
}

/// An account as contracts speak of one.
pub struct AccountView {
    pub id: i32,
    pub user_id: i32,
    pub type_: Seq<char>,
    pub email: Option<Seq<char>>,
    pub password: Option<Seq<char>>,
    pub provider: Option<Seq<char>>,
    pub provider_account_id: Option<Seq<char>>,
    pub refresh_token: Option<Seq<char>>,
    pub access_token: Option<Seq<char>>,
    pub expires_at: Option<i32>,
    pub token_type: Option<Seq<char>>,
    pub scope: Option<Seq<char>>,
    pub id_token: Option<Seq<char>>,
    pub session_state: Option<Seq<char>>,
    pub refresh_token_expires_in: Option<i32>,
}

impl AccountView {
    /// The account signs in by email and password.
    pub open spec fn is_email(self) -> bool {
        self.type_ == "email"@
    }

    /// The account is of the reserved kind.
    pub open spec fn is_oauth(self) -> bool {
        self.type_ == "oauth"@
    }

    /// None of the fields of the reserved kind is set.
    pub open spec fn provider_fields_absent(self) -> bool {
        &&& self.provider is None
        &&& self.provider_account_id is None
        &&& self.refresh_token is None
        &&& self.access_token is None
        &&& self.expires_at is None
        &&& self.token_type is None
        &&& self.scope is None
        &&& self.id_token is None
        &&& self.session_state is None
        &&& self.refresh_token_expires_in is None
    }

    /// The fields agree with the kind.
    pub open spec fn wf(self) -> bool {
        if self.is_email() {
            self.email is Some && self.password is Some && self.provider_fields_absent()
        } else {
            self.is_oauth() && self.email is None && self.password is None
        }
    }

    /// A sign-in by `email` is checked against this account: it is an email
    /// account for that address and holds a password hash.
    pub open spec fn answers_to(self, email: Seq<char>) -> bool {
        self.is_email() && self.email == Some(email) && self.password is Some
    }

    /// The email account that `create_email_account` writes for a user.
    pub open spec fn email_account(
        id: i32,
        user_id: i32,
        email: Seq<char>,
        password_hash: Seq<char>,
    ) -> AccountView {
        AccountView {
            id,
            user_id,
            type_: "email"@,
            email: Some(email),
            password: Some(password_hash),
            provider: None,
            provider_account_id: None,
            refresh_token: None,
            access_token: None,
            expires_at: None,
            token_type: None,
            scope: None,
            id_token: None,
            session_state: None,
            refresh_token_expires_in: None,
        }
    }
}

impl View for Account {
    type V = AccountView;

    open spec fn view(&self) -> AccountView {
        AccountView {
            id: self.id,
            user_id: self.user_id,
            type_: self.type_@,
            email: self.email.deep_view(),
            password: self.password.deep_view(),
            provider: self.provider.deep_view(),
            provider_account_id: self.provider_account_id.deep_view(),
            refresh_token: self.refresh_token.deep_view(),
            access_token: self.access_token.deep_view(),
            expires_at: self.expires_at,
            token_type: self.token_type.deep_view(),
            scope: self.scope.deep_view(),
            id_token: self.id_token.deep_view(),
            session_state: self.session_state.deep_view(),
            refresh_token_expires_in: self.refresh_token_expires_in,
        }
    }
}

impl DeepView for Account {
    type V = AccountView;

    open spec fn deep_view(&self) -> AccountView {
        self@
    }
}

impl Clone for Account {
    fn clone(&self) -> (copy: Self)
        ensures
            copy == *self,
    {
        Account {
            id: self.id,
            user_id: self.user_id,
            type_: self.type_.clone(),
            email: self.email.clone(),
            password: self.password.clone(),
            provider: self.provider.clone(),
            provider_account_id: self.provider_account_id.clone(),
            refresh_token: self.refresh_token.clone(),
            access_token: self.access_token.clone(),
            expires_at: self.expires_at,
            token_type: self.token_type.clone(),
            scope: self.scope.clone(),
            id_token: self.id_token.clone(),
            session_state: self.session_state.clone(),
            refresh_token_expires_in: self.refresh_token_expires_in,
        }
    }
}

impl Account {
    /// Whether none of the fields of the reserved kind is set.
    fn provider_fields_absent(&self) -> (absent: bool)
        ensures
            absent == self@.provider_fields_absent(),
    {
        self.provider.is_none() && self.provider_account_id.is_none()
            && self.refresh_token.is_none() && self.access_token.is_none()
            && self.expires_at.is_none() && self.token_type.is_none() && self.scope.is_none()
            && self.id_token.is_none() && self.session_state.is_none()
            && self.refresh_token_expires_in.is_none()
    }

    /// Writes an email account for the user `user_id` to `store`. Fails
    /// with `QueryFailed` if there is no such user or the ids have run out;
    /// the store is then unchanged.
    pub fn create_email_account(
        store: &mut IdentityStore,
        user_id: i32,
        email: String,
        password_hash: String,
    ) -> (written: Result<Account, Error>)
        requires
            old(store).wf(),
        ensures
            final(store).wf(),
            match written {
                Ok(account) => {
                    &&& old(store)@.account_fault(user_id) is None
                    &&& account@ == old(store)@.next_email_account(
                        user_id,
                        email@,
                        password_hash@,
                    )
                    &&& final(store)@ == old(store)@.with_account(account@)
                },
                Err(fault) => {
                    &&& old(store)@.account_fault(user_id) == Some(fault)
                    &&& final(store)@ == old(store)@
                },
            },
    {
        store.insert_email_account(user_id, email, password_hash)
    }

    /// Finds the account that a sign-in by `email` is checked against.
    pub fn find_by_email(store: &IdentityStore, email: &str) -> (found: Option<Account>)
        ensures
            found.deep_view() == store@.account_by_email(email@),
    {
        store.find_email_account(email)
    }

    /// Whether the fields agree with the kind.
    pub fn is_well_formed(&self) -> (ok: bool)
        ensures
            ok == self@.wf(),
    {
        if same_text(self.type_.as_str(), "email") {
            self.email.is_some() && self.password.is_some() && self.provider_fields_absent()
        } else {
            same_text(self.type_.as_str(), "oauth") && self.email.is_none()
                && self.password.is_none()
        }
    }

    /// Whether a sign-in by `email` is checked against this account.
    pub fn answers_to(&self, email: &str) -> (answers: bool)
        ensures
            answers == self@.answers_to(email@),
    {
        if !same_text(self.type_.as_str(), "email") {
            return false;
        }
        match &self.email {
            Some(own) => same_text(own.as_str(), email) && self.password.is_some(),
            None => false,
        }
    }
}

/// An account that is about to be written: an `Account` without the id that
/// the store assigns.
#[derive(Debug)]
pub struct NewAccount {
    pub user_id: i32,
    pub type_: String,
    pub email: Option<String>,
    pub password: Option<String>,
    pub provider: Option<String>,
    pub provider_account_id: Option<String>,
}

impl Clone for NewAccount {
    fn clone(&self) -> (copy: Self)
        ensures
            copy == *self,
    {
        NewAccount {
            user_id: self.user_id,
            type_: self.type_.clone(),
            email: self.email.clone(),
            password: self.password.clone(),
            provider: self.provider.clone(),
            provider_account_id: self.provider_account_id.clone(),
        }
    }
}

impl NewAccount {
    /// The record of an email account for `user_id`, with the address and
    /// the hash of the password.
    pub fn email(user_id: i32, email: String, password_hash: String) -> (record: NewAccount)
        ensures
            record.user_id == user_id,
            record.type_@ == "email"@,
            record.email == Some(email),
            record.password == Some(password_hash),
            record.provider is None,
            record.provider_account_id is None,
    {
        NewAccount {
            user_id,
            type_: "email".to_owned(),
            email: Some(email),
            password: Some(password_hash),
            provider: None,
            provider_account_id: None,
        }
    }

    /// The account this record becomes under the id `id`.
    pub open spec fn with_id(self, id: i32) -> AccountView {
        AccountView {
            id,
            user_id: self.user_id,
            type_: self.type_@,
            email: self.email.deep_view(),
            password: self.password.deep_view(),
            provider: self.provider.deep_view(),
            provider_account_id: self.provider_account_id.deep_view(),
            refresh_token: None,
            access_token: None,
            expires_at: None,
            token_type: None,
            scope: None,
            id_token: None,
            session_state: None,
            refresh_token_expires_in: None,
        }
    }

    /// Gives the record its id.
    pub fn into_account(self, id: i32) -> (account: Account)
        ensures
            account@ == self.with_id(id),
    {
        Account {
            id,
            user_id: self.user_id,
            type_: self.type_,
            email: self.email,
            password: self.password,
            provider: self.provider,
            provider_account_id: self.provider_account_id,
            refresh_token: None,
            access_token: None,
            expires_at: None,
            token_type: None,
            scope: None,
            id_token: None,
            session_state: None,
            refresh_token_expires_in: None,
        }
    }
}

} // verus!
