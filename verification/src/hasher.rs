//! The credential hasher: salted one-way hashes of passwords, and their
//! verification. The hashing itself is the work of the `password_auth`
//! crate; this module states what the rest of the library relies on, and
//! decides which stored strings are handed to it at all.

use vstd::prelude::*;
use vstd::string::StringSliceAdditionalSpecFns;
use vstd::utf8::{is_ascii_chars, is_ascii_chars_encode_utf8};

verus! {

/// Whether `password_auth::verify_password` accepts `password` for the
/// stored string `stored`. The outcome is a function of the two strings
/// alone: algorithm, parameters and salt are all read from `stored`.
pub uninterp spec fn password_matches(password: Seq<char>, stored: Seq<char>) -> bool;

#[verifier::external_type_specification]
#[verifier::external_body]
pub struct ExVerifyError(password_auth::VerifyError);

/// The longest plaintext, in bytes, that the hashing algorithm takes.
pub const MAX_PLAINTEXT_LEN: usize = 0xFFFF_FFFF;

/// The most decimal digits that a stored hash may give its degree of
/// parallelism. Eight digits hold every degree that the algorithm allows.
pub const MAX_LANE_DIGITS: usize = 8;

/// A decimal digit.
pub open spec fn is_digit(c: char) -> bool {
    '0' <= c && c <= '9'
}

/// The number of decimal digits that stand in `text` from `from` on, one
/// after the other.
pub open spec fn digit_run(text: Seq<char>, from: int) -> nat
    decreases text.len() - from,
{
    if 0 <= from < text.len() && is_digit(text[from]) {
        1 + digit_run(text, from + 1)
    } else {
        0
    }
}

/// At `i` the text reads `p=`, which is how a stored hash names its degree
/// of parallelism.
pub open spec fn names_lanes_at(text: Seq<char>, i: int) -> bool {
    0 <= i && i + 1 < text.len() && text[i] == 'p' && text[i + 1] == '='
}

/// Wherever the text reads `p=`, at most `MAX_LANE_DIGITS` digits follow.
pub open spec fn lanes_bounded(text: Seq<char>) -> bool {
    forall|i: int| #[trigger] names_lanes_at(text, i) ==> digit_run(text, i + 2) <= MAX_LANE_DIGITS
}

/// What a stored string must pass before it is handed to the verifier: it
/// is ASCII, begins with `$` as every hash string does, and asks for a
/// degree of parallelism of at most `MAX_LANE_DIGITS` digits, if it asks for
/// one. Every hash that `hash` makes passes. A string that does not pass is
/// refused unread.
pub open spec fn admissible(stored: Seq<char>) -> bool {
    &&& is_ascii_chars(stored)
    &&& stored.len() > 0
    &&& stored[0] == '$'
    &&& lanes_bounded(stored)
}

/// `password` verifies against the stored string `stored`: the string is
/// admissible, and the verifier accepts the password for it.
pub open spec fn accepts(password: Seq<char>, stored: Seq<char>) -> bool {
    admissible(stored) && password_matches(password, stored)
}

/// Where the characters from `from` up to `to` are all digits, the run of
/// digits from `from` is at least that long, and exactly that long where it
/// ends at `to`.
pub proof fn lemma_digit_run(text: Seq<char>, from: int, to: int)
    requires
        0 <= from <= to <= text.len(),
        forall|k: int| from <= k < to ==> is_digit(#[trigger] text[k]),
    ensures
        digit_run(text, from) >= to - from,
        to == text.len() || !is_digit(text[to]) ==> digit_run(text, from) == to - from,
    decreases to - from,
{
    if from < to {
        lemma_digit_run(text, from + 1, to);
    }
}

/// Calls `password_auth::generate_hash`.
///
/// Trusted: the string that comes back is a hash that
/// `password_auth::verify_password` accepts for the same password, written
/// as every such hash is: in ASCII, beginning with `$`, with `=` only in
/// its version and its three cost parameters, of which the degree of
/// parallelism is 1. The salt is drawn at random, so two calls on one
/// password give different strings and nothing else is said of the result.
/// The outside function panics on a password longer than
/// `MAX_PLAINTEXT_LEN` bytes, which `requires` leaves out.
#[verifier::external_body]
fn generate_hash(password: &str) -> (stored: String)
    requires
        password.len() <= MAX_PLAINTEXT_LEN,
    ensures
        admissible(stored@),
        password_matches(password@, stored@),
{
    password_auth::generate_hash(password)
}

/// Calls `password_auth::verify_password`.
///
/// Trusted: the call succeeds exactly when `password_matches` holds of the
/// two strings, which is what names its outcome. A hash string that does not
/// parse comes back as an error like any other mismatch. The outside
/// function multiplies the degree of parallelism that the string asks for
/// by eight before it checks it, in 32 bits, and panics where that
/// overflows; `requires` leaves out every string that asks for one of more
/// than `MAX_LANE_DIGITS` digits. What the call costs in time and memory is
/// set by the parameters that the string carries.
#[verifier::external_body]
fn verify_password(password: &str, stored: &str) -> (outcome: Result<
    (),
    password_auth::VerifyError,
>)
    requires
        lanes_bounded(stored@),
    ensures
        outcome.is_ok() == password_matches(password@, stored@),
{
    password_auth::verify_password(password, stored)
}

/// Whether `stored` may be handed to the verifier.
pub fn is_admissible(stored: &str) -> (ok: bool)
    ensures
        ok == admissible(stored@),
{
    if !stored.is_ascii() {
        return false;
    }
    let bytes = stored.as_bytes();
    let n = bytes.len();
    proof {
        is_ascii_chars_encode_utf8(stored@);
    }
    if n == 0 || bytes[0] != 36u8 {
        return false;
    }
    let mut i: usize = 0;
    while i + 1 < n
        invariant
            n == stored@.len(),
            n == bytes@.len(),
            0 < n,
            is_ascii_chars(stored@),
            forall|k: int| 0 <= k < n ==> stored@[k] as u8 == #[trigger] bytes@[k],
            i < n,
            forall|k: int| 0 <= k < i && #[trigger] names_lanes_at(stored@, k) ==> digit_run(
                stored@,
                k + 2,
            ) <= MAX_LANE_DIGITS,
        decreases n - i,
    {
        if bytes[i] == 112u8 && bytes[i + 1] == 61u8 {
            let mut j: usize = i + 2;
            while j < n && j - (i + 2) <= MAX_LANE_DIGITS && 48u8 <= bytes[j] && bytes[j] <= 57u8
                invariant
                    n == stored@.len(),
                    n == bytes@.len(),
                    is_ascii_chars(stored@),
                    forall|k: int| 0 <= k < n ==> stored@[k] as u8 == #[trigger] bytes@[k],
                    i + 2 <= j <= n,
                    j - (i + 2) <= MAX_LANE_DIGITS + 1,
                    forall|k: int| i + 2 <= k < j ==> is_digit(#[trigger] stored@[k]),
                decreases n - j,
            {
                assert(stored@[j as int] as u8 == bytes@[j as int]);
                j += 1;
            }
            proof {
                if j < n {
                    assert(stored@[j as int] as u8 == bytes@[j as int]);
                }
                lemma_digit_run(stored@, i + 2, j as int);
                assert(names_lanes_at(stored@, i as int)) by {
                    assert(stored@[i as int] as u8 == bytes@[i as int]);
                    assert(stored@[i + 1] as u8 == bytes@[i + 1]);
                }
            }
            if j - (i + 2) > MAX_LANE_DIGITS {
                return false;
            }
        } else {
            proof {
                assert(stored@[i as int] as u8 == bytes@[i as int]);
                assert(stored@[i + 1] as u8 == bytes@[i + 1]);
                assert(!names_lanes_at(stored@, i as int));
            }
        }
        i += 1;
    }
    proof {
        assert(stored@[0] as u8 == bytes@[0]);
        assert forall|k: int| #[trigger] names_lanes_at(stored@, k) implies digit_run(
            stored@,
            k + 2,
        ) <= MAX_LANE_DIGITS by {
            assert(k < i);
        }
    }
    true
}

/// Hashes `plaintext` under a fresh random salt. The result carries its
/// algorithm, parameters and salt, and verifies against `plaintext`.
pub fn hash(plaintext: &str) -> (stored: String)
    requires
        plaintext.len() <= MAX_PLAINTEXT_LEN,
    ensures
        accepts(plaintext@, stored@),
{
    generate_hash(plaintext)
}

/// Checks `plaintext` against `stored_hash`. A malformed hash is a failed
/// verification, never a fault: a string that is not admissible is refused
/// unread, and one that is admissible but does not parse is refused by the
/// verifier.
pub fn verify(plaintext: &str, stored_hash: &str) -> (ok: bool)
    ensures
        ok == accepts(plaintext@, stored_hash@),
{
    if !is_admissible(stored_hash) {
        return false;
    }
    match verify_password(plaintext, stored_hash) {
        Ok(_) => true,
        Err(_) => false,
    }
}

} // verus!
