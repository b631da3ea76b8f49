//! Session and user identifiers.
//!
//! Identifiers are 128-bit values carried as `u128`; their text form is the
//! hyphenated UUID rendering, and fresh identifiers are drawn from the
//! `uuid` crate's version-4 generator. What the crate's parser and
//! formatter compute is named by the uninterpreted functions
//! [`uuid_from_text`] and [`uuid_text`].

use vstd::prelude::*;
use uuid::Uuid;

verus! {

/// The identifier that `uuid::Uuid::parse_str` reads from `s`, if any.
pub uninterp spec fn uuid_from_text(s: Seq<char>) -> Option<u128>;

/// The hyphenated text form that `uuid::Uuid` renders `v` as.
pub uninterp spec fn uuid_text(v: u128) -> Seq<char>;

/// Relies on `uuid::Uuid::new_v4`: a fresh random identifier. Nothing is
/// promised of the value; collisions with existing identifiers, however
/// unlikely, are handled by the callers.
#[verifier::external_body]
pub fn new_raw_id() -> u128 {
    Uuid::new_v4().as_u128()
}

/// Relies on `uuid::Uuid::parse_str` (with `Uuid::as_u128`): deterministic
/// in the input text; malformed text yields `None`.
#[verifier::external_body]
pub fn parse_id(s: &str) -> (r: Option<u128>)
    ensures
        r == uuid_from_text(s@),
{
    match Uuid::parse_str(s) {
        Ok(u) => Some(u.as_u128()),
        Err(_) => None,
    }
}

/// Relies on `uuid::Uuid`'s `Display` rendering (via `Uuid::from_u128`):
/// the hyphenated form, deterministic in the value, and documented to be
/// read back by `Uuid::parse_str` as the same identifier.
#[verifier::external_body]
pub fn id_text(v: u128) -> (r: String)
    ensures
        r@ == uuid_text(v),
        uuid_from_text(r@) == Some(v),
{
    Uuid::from_u128(v).to_string()
}

} // verus!
