//! Endpoint validation.  A client may only ever be built on an endpoint that
//! the fixed pattern accepts; the check runs once, at construction.

use vstd::prelude::*;

verus! {

/// Whether the endpoint pattern `https://[\w,',",-]+.firebaseio.com/` has a
/// match somewhere in `s`.  The pattern's word class is Unicode-aware and
/// its two dots are unescaped (each matches any character), so the relation
/// is given a name here rather than restated; tests exercise it on concrete
/// strings through [`crate::client::FirebaseClient::new`].
pub uninterp spec fn endpoint_accepted(s: Seq<char>) -> bool;

/// Relies on `regex::Regex::new` and `regex::Regex::is_match`: `new` compiles
/// the fixed, valid pattern above (it returns `Ok` for every valid pattern of
/// this size), and `is_match` returns true if and only if that pattern
/// matches anywhere in the haystack, a function of the haystack alone.
#[verifier::external_body]
pub(crate) fn endpoint_is_match(s: &str) -> (r: bool)
    ensures
        r == endpoint_accepted(s@),
{
    let pattern = regex::Regex::new("https://[\\w,',\",-]+.firebaseio.com/").unwrap();
    pattern.is_match(s)
}

} // verus!
