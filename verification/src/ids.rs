//! Row ids on the wire: the store's 128-bit ids travel as UUID strings.

use vstd::prelude::*;

verus! {

/// The hyphenated UUID string for a 128-bit id; a function of the id alone.
pub uninterp spec fn uuid_str_of(id: u128) -> Seq<char>;

/// What parsing a UUID string yields, or nothing when the string is not a
/// well-formed UUID.
pub uninterp spec fn uuid_parse_of(s: Seq<char>) -> Option<u128>;

/// Relies on `uuid::Uuid::from_u128` and its display form, named `uuid_str_of`.
#[verifier::external_body]
pub fn uuid_format(id: u128) -> (r: String)
    ensures
        r@ == uuid_str_of(id),
{
    uuid::Uuid::from_u128(id).to_string()
}

/// Relies on `uuid::Uuid::parse_str` and `as_u128`: deterministic in the
/// string (named `uuid_parse_of`) and the inverse of the display form.
#[verifier::external_body]
pub fn uuid_parse(s: &str) -> (r: Option<u128>)
    ensures
        (r is Some) == (uuid_parse_of(s@) is Some),
        r matches Some(id) ==> uuid_parse_of(s@) == Some(id),
        r is None ==> (forall|id: u128| s@ != uuid_str_of(id)),
        r matches Some(id) ==> (forall|other: u128| s@ == uuid_str_of(other) ==> id == other),
{
    match uuid::Uuid::parse_str(s) {
        Ok(u) => Some(u.as_u128()),
        Err(_) => None,
    }
}

} // verus!
