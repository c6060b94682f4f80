//! The credential hasher: bcrypt, as a one-way hash and its check.

use vstd::prelude::*;

verus! {

/// What checking `password` against `hash` gives: whether they match, or
/// `None` where `hash` is no bcrypt hash.
pub uninterp spec fn bcrypt_verdict(password: Seq<char>, hash: Seq<char>) -> Option<bool>;

/// Calls `bcrypt::verify`. Trusted: the result, with the crate's error
/// dropped, is the named verdict of the two arguments.
#[verifier::external_body]
fn check(password: &str, hash: &str) -> (verdict: Option<bool>)
    ensures
        verdict == bcrypt_verdict(password@, hash@),
{
    bcrypt::verify(password, hash).ok()
}

/// Calls `bcrypt::hash`, which salts with fresh random bytes. Trusted: a
/// hash comes back only for a cost from 4 to 31, and the password it was
/// made from checks against it.
#[verifier::external_body]
fn salted_hash(password: &str, cost: u32) -> (hash: Option<String>)
    ensures
        hash matches Some(text) ==> 4 <= cost <= 31 && bcrypt_verdict(password@, text@) == Some(
            true,
        ),
{
    bcrypt::hash(password, cost).ok()
}

/// Whether a password is the one a hash was made from.
pub open spec fn matches_hash(password: Seq<char>, hash: Seq<char>) -> bool {
    bcrypt_verdict(password, hash) == Some(true)
}

/// Whether a password is the one a hash was made from. A text that is no
/// hash matches nothing.
pub fn verify(password: &str, hash: &str) -> (same: bool)
    ensures
        same == matches_hash(password@, hash@),
{
    match check(password, hash) {
        Some(verdict) => verdict,
        None => false,
    }
}

/// A fresh hash of a password, or `None` where the cost is out of range or
/// no random salt could be had.
pub fn hash(password: &str, cost: u32) -> (hash: Option<String>)
    ensures
        hash matches Some(text) ==> matches_hash(password@, text@),
        !(4 <= cost <= 31) ==> hash is None,
{
    if cost < 4 || cost > 31 {
        return None;
    }
    salted_hash(password, cost)
}

} // verus!
