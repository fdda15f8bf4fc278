//! Identifier handling: the syntactic validity of entity identifiers, checked
//! through the `uuid` crate, and generation of fresh identifiers.

use vstd::prelude::*;

verus! {

/// Holds exactly of the character sequences that `uuid::Uuid::parse_str`
/// accepts; parsing depends on the characters alone.
pub uninterp spec fn uuid_syntax_ok(s: Seq<char>) -> bool;

/// Relies on `uuid::Uuid::parse_str`: it accepts or rejects on the characters
/// alone, and its error text describes the rejection.
#[verifier::external_body]
pub(crate) fn check_uuid(s: &str) -> (r: Result<(), String>)
    ensures
        r is Ok <==> uuid_syntax_ok(s@),
{
    match uuid::Uuid::parse_str(s) {
        Ok(_) => Ok(()),
        Err(e) => Err(e.to_string()),
    }
}

/// Relies on `uuid::Uuid::new_v4` and its `Display` form: the result is a
/// hyphenated identifier, which `parse_str` accepts. The drawn value is
/// random, so nothing more is promised of it.
#[verifier::external_body]
pub(crate) fn fresh_uuid() -> (r: String)
    ensures
        uuid_syntax_ok(r@),
{
    uuid::Uuid::new_v4().to_string()
}

} // verus!
