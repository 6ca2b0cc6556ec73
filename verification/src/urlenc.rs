//! Form/query encoding of key-value pairs, done by serde_urlencoded behind
//! a trusted wrapper.

use vstd::prelude::*;

verus! {

/// The `application/x-www-form-urlencoded` rendering of a sequence of
/// key-value pairs.
pub uninterp spec fn urlencoded_of(pairs: Seq<(Seq<char>, Seq<char>)>) -> Seq<char>;

/// Relies on `serde_urlencoded::to_string`: a top-level sequence of string
/// pairs is encoded as percent-escaped `key=value` terms joined by `&`, a
/// function of the pairs alone. The encoder accepts every string key and
/// value (both go through its string serializer, which never fails), so
/// the call always returns a value.
#[verifier::external_body]
pub fn urlencode_pairs(pairs: &Vec<(String, String)>) -> (r: String)
    ensures
        r@ == urlencoded_of(pairs.deep_view()),
{
    serde_urlencoded::to_string(pairs).expect("string pairs always form-encode")
}

} // verus!
