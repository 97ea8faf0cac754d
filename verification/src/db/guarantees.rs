//! What holds of the backend in every state: who is let in, who is not,
//! and which ids resolve to a user.

use crate::clock::Timestamp;
use crate::db::models::users::{authenticate_answer, get_user_answer, Error, UserView};
use crate::db::pool::PoolView;
use crate::db::store::StoreView;
use crate::hasher::accepts;
use vstd::prelude::*;

verus! {

/// In a store in order, the owner of every account can be looked up.
pub proof fn lemma_owner_is_found(store: StoreView, i: int)
    requires
        store.wf(),
        0 <= i < store.accounts.len(),
    ensures
        store.user_by_id(store.accounts[i].user_id) is Some,
        store.user_by_id(store.accounts[i].user_id)->0.id == store.accounts[i].user_id,
{
    let owner = store.accounts[i].user_id;
    assert(store.has_user(owner));
    let k = choose|k: int| store.user_at(k, owner);
    assert(store.user_at(k, owner));
}

/// A lookup by address finds the first account that answers to it, and no
/// other.
pub proof fn lemma_first_answer_is_found(store: StoreView, email: Seq<char>, i: int)
    requires
        store.first_answer_at(i, email),
    ensures
        store.account_by_email(email) == Some(store.accounts[i]),
{
    assert(store.answers_at(i, email));
    let k = choose|k: int| store.first_answer_at(k, email);
    assert(store.first_answer_at(k, email));
    assert(k == i);
}

/// Whoever gives the address of an account and a password that verifies
/// against its hash is let in as the user that owns the account, provided
/// that the account is the first to answer to the address and the pool
/// yields a connection.
pub proof fn lemma_registered_pair_is_let_in(
    pool: PoolView,
    store: StoreView,
    email: Seq<char>,
    password: Seq<char>,
    i: int,
)
    requires
        store.wf(),
        pool.checkout_fault() is None,
        store.first_answer_at(i, email),
        accepts(password, store.accounts[i].password->0),
    ensures
        authenticate_answer(pool, store, email, password) == Ok::<Option<UserView>, Error>(
            store.user_by_id(store.accounts[i].user_id),
        ),
        store.user_by_id(store.accounts[i].user_id) is Some,
        store.user_by_id(store.accounts[i].user_id)->0.id == store.accounts[i].user_id,
{
    lemma_first_answer_is_found(store, email, i);
    lemma_owner_is_found(store, i);
}

/// Whoever gives the address of an account and a password that does not
/// verify against its hash is refused, with the answer that a stranger
/// gets.
pub proof fn lemma_wrong_password_is_refused(
    pool: PoolView,
    store: StoreView,
    email: Seq<char>,
    password: Seq<char>,
    i: int,
)
    requires
        store.wf(),
        pool.checkout_fault() is None,
        store.first_answer_at(i, email),
        !accepts(password, store.accounts[i].password->0),
    ensures
        authenticate_answer(pool, store, email, password) == Ok::<Option<UserView>, Error>(None),
{
    lemma_first_answer_is_found(store, email, i);
    lemma_owner_is_found(store, i);
}

/// Whoever gives an address that no account answers to is refused,
/// whatever the password.
pub proof fn lemma_unknown_address_is_refused(
    pool: PoolView,
    store: StoreView,
    email: Seq<char>,
    password: Seq<char>,
)
    requires
        pool.checkout_fault() is None,
        !store.has_email(email),
    ensures
        authenticate_answer(pool, store, email, password) == Ok::<Option<UserView>, Error>(None),
{
}

/// A signup under an address that no account answered to before makes its
/// account the first to answer to that address.
pub proof fn lemma_signup_registers(
    store: StoreView,
    username: Seq<char>,
    created_at: Timestamp,
    email: Seq<char>,
    password_hash: Seq<char>,
)
    requires
        store.wf(),
        store.signup_fault(username) is None,
        !store.has_email(email),
    ensures
        ({
            let after = store.signed_up(username, created_at, email, password_hash);
            let i = store.accounts.len() as int;
            &&& after.first_answer_at(i, email)
            &&& after.accounts[i].password == Some(password_hash)
            &&& after.accounts[i].user_id == store.next_user(username, created_at).id
            &&& after.user_by_id(after.accounts[i].user_id) == Some(
                store.next_user(username, created_at),
            )
        }),
{
    let after = store.signed_up(username, created_at, email, password_hash);
    let user = store.next_user(username, created_at);
    let i = store.accounts.len() as int;
    assert forall|j: int| 0 <= j < i implies !after.answers_at(j, email) by {
        assert(after.accounts[j] == store.accounts[j]);
        assert(!store.answers_at(j, email));
    }
    crate::db::store::lemma_signed_up_keeps_wf(store, username, created_at, email, password_hash);
    assert(after.user_at(store.users.len() as int, user.id));
    let k = choose|k: int| after.user_at(k, user.id);
    assert(after.user_at(k, user.id));
    assert(k == store.users.len());
}

/// Sign up, then sign in: after a signup under an address that no account
/// answered to before, the address and a password that verifies against
/// the hash written are let in as the user just created.
pub proof fn lemma_signup_then_authenticate(
    pool: PoolView,
    store: StoreView,
    username: Seq<char>,
    created_at: Timestamp,
    email: Seq<char>,
    password_hash: Seq<char>,
    password: Seq<char>,
)
    requires
        store.wf(),
        pool.checkout_fault() is None,
        store.signup_fault(username) is None,
        !store.has_email(email),
        accepts(password, password_hash),
    ensures
        authenticate_answer(
            pool,
            store.signed_up(username, created_at, email, password_hash),
            email,
            password,
        ) == Ok::<Option<UserView>, Error>(Some(store.next_user(username, created_at))),
{
    let after = store.signed_up(username, created_at, email, password_hash);
    lemma_signup_registers(store, username, created_at, email, password_hash);
    crate::db::store::lemma_signed_up_keeps_wf(store, username, created_at, email, password_hash);
    lemma_registered_pair_is_let_in(pool, after, email, password, store.accounts.len() as int);
}

/// A signup changes no answer for an address that an account answered to
/// before, nor for any address other than its own: who could sign in still
/// can, and as the same user.
pub proof fn lemma_signup_keeps_answers(
    pool: PoolView,
    store: StoreView,
    username: Seq<char>,
    created_at: Timestamp,
    email: Seq<char>,
    password_hash: Seq<char>,
    other: Seq<char>,
    password: Seq<char>,
)
    requires
        store.wf(),
        store.signup_fault(username) is None,
        store.has_email(other) || other != email,
    ensures
        authenticate_answer(
            pool,
            store.signed_up(username, created_at, email, password_hash),
            other,
            password,
        ) == authenticate_answer(pool, store, other, password),
{
    let after = store.signed_up(username, created_at, email, password_hash);
    crate::db::store::lemma_signed_up_keeps_wf(store, username, created_at, email, password_hash);
    if store.has_email(other) {
        let i = choose|i: int| store.first_answer_at(i, other);
        lemma_has_email_has_first(store, other);
        assert(store.first_answer_at(i, other));
        assert(after.accounts[i] == store.accounts[i]);
        assert forall|j: int| 0 <= j < i implies !after.answers_at(j, other) by {
            assert(after.accounts[j] == store.accounts[j]);
            assert(!store.answers_at(j, other));
        }
        assert(after.first_answer_at(i, other));
        lemma_first_answer_is_found(store, other, i);
        lemma_first_answer_is_found(after, other, i);
        lemma_owner_is_found(store, i);
        lemma_user_is_kept(store, username, created_at, email, password_hash, store.accounts[i].user_id);
    } else {
        assert forall|j: int| !after.answers_at(j, other) by {
            if 0 <= j < store.accounts.len() {
                assert(after.accounts[j] == store.accounts[j]);
                assert(!store.answers_at(j, other));
            }
        }
    }
}

/// Where an account answers to an address, one of them is the first.
pub proof fn lemma_has_email_has_first(store: StoreView, email: Seq<char>)
    requires
        store.has_email(email),
    ensures
        exists|i: int| store.first_answer_at(i, email),
{
    let k = choose|k: int| store.answers_at(k, email);
    lemma_first_answer_before(store, email, k);
}

/// Before any account that answers to an address there is a first that
/// does.
proof fn lemma_first_answer_before(store: StoreView, email: Seq<char>, k: int)
    requires
        store.answers_at(k, email),
    ensures
        exists|i: int| store.first_answer_at(i, email),
    decreases k,
{
    if forall|j: int| 0 <= j < k ==> !store.answers_at(j, email) {
        assert(store.first_answer_at(k, email));
    } else {
        let j = choose|j: int| 0 <= j < k && store.answers_at(j, email);
        lemma_first_answer_before(store, email, j);
    }
}

/// A signup leaves every user that was there before as it was, under the
/// same id.
pub proof fn lemma_user_is_kept(
    store: StoreView,
    username: Seq<char>,
    created_at: Timestamp,
    email: Seq<char>,
    password_hash: Seq<char>,
    id: i32,
)
    requires
        store.wf(),
        store.signup_fault(username) is None,
        store.has_user(id),
    ensures
        store.signed_up(username, created_at, email, password_hash).user_by_id(id)
            == store.user_by_id(id),
{
    let after = store.signed_up(username, created_at, email, password_hash);
    crate::db::store::lemma_signed_up_keeps_wf(store, username, created_at, email, password_hash);
    let i = choose|i: int| store.user_at(i, id);
    assert(store.user_at(i, id));
    assert(after.user_at(i, id));
    let k = choose|k: int| after.user_at(k, id);
    assert(after.user_at(k, id));
    assert(k == i);
}

/// One request to sign up, as the store sees it: the name, the time, the
/// address and the hash of the password.
pub struct SignupRecord {
    pub username: Seq<char>,
    pub created_at: Timestamp,
    pub email: Seq<char>,
    pub password_hash: Seq<char>,
}

/// The store that a sequence of signup requests leaves behind, starting
/// from an empty one. A request that the store refuses changes nothing.
pub open spec fn replay(requests: Seq<SignupRecord>) -> StoreView
    decreases requests.len(),
{
    if requests.len() == 0 {
        StoreView::empty()
    } else {
        let before = replay(requests.drop_last());
        let last = requests.last();
        if before.signup_fault(last.username) is None {
            before.signed_up(last.username, last.created_at, last.email, last.password_hash)
        } else {
            before
        }
    }
}

/// The ids that the signups among a sequence of requests were answered
/// with.
pub open spec fn issued_ids(requests: Seq<SignupRecord>) -> Set<i32>
    decreases requests.len(),
{
    if requests.len() == 0 {
        Set::empty()
    } else {
        let before = replay(requests.drop_last());
        let last = requests.last();
        if before.signup_fault(last.username) is None {
            issued_ids(requests.drop_last()).insert(
                before.next_user(last.username, last.created_at).id,
            )
        } else {
            issued_ids(requests.drop_last())
        }
    }
}

/// After any sequence of signup requests the store is in order, and an id
/// resolves to a user exactly if a signup was answered with it. An id that
/// was never issued, by this store, resolves to nobody.
pub proof fn lemma_get_user_knows_exactly_the_issued(
    pool: PoolView,
    requests: Seq<SignupRecord>,
    id: i32,
)
    requires
        pool.checkout_fault() is None,
    ensures
        replay(requests).wf(),
        get_user_answer(pool, replay(requests), id) == Ok::<Option<UserView>, Error>(
            replay(requests).user_by_id(id),
        ),
        replay(requests).user_by_id(id) is Some <==> issued_ids(requests).contains(id),
        replay(requests).user_by_id(id) is Some ==> replay(requests).user_by_id(id)->0.id == id,
    decreases requests.len(),
{
    if requests.len() == 0 {
        assert(!StoreView::empty().has_user(id));
    } else {
        let earlier = requests.drop_last();
        let before = replay(earlier);
        let last = requests.last();
        lemma_get_user_knows_exactly_the_issued(pool, earlier, id);
        if before.signup_fault(last.username) is None {
            let after = replay(requests);
            let user = before.next_user(last.username, last.created_at);
            crate::db::store::lemma_signed_up_keeps_wf(
                before,
                last.username,
                last.created_at,
                last.email,
                last.password_hash,
            );
            if before.has_user(id) {
                lemma_user_is_kept(
                    before,
                    last.username,
                    last.created_at,
                    last.email,
                    last.password_hash,
                    id,
                );
            } else if id == user.id {
                assert(after.user_at(before.users.len() as int, id));
            } else {
                assert forall|k: int| !after.user_at(k, id) by {
                    if 0 <= k < before.users.len() {
                        assert(before.user_at(k, id) == after.user_at(k, id));
                    }
                }
            }
            if after.has_user(id) {
                let k = choose|k: int| after.user_at(k, id);
                assert(after.user_at(k, id));
            }
        } else {
            if before.has_user(id) {
                let k = choose|k: int| before.user_at(k, id);
                assert(before.user_at(k, id));
            }
        }
    }
}

} // verus!
