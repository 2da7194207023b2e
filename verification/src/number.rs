//! JSON numbers as `serde_json` holds them.
//!
//! A `Number` is carried through unread.  The one thing asked of it is whether
//! it is an integer that fits `i64`.

use serde_json::Number;
use vstd::prelude::*;

verus! {

/// `serde_json::Number`: held and handed on, never looked into from here.
#[verifier::external_type_specification]
#[verifier::external_body]
pub struct ExNumber(serde_json::Number);

/// What `Number::as_i64` returns for `n`: the integer that `n` holds, where it
/// holds one that fits `i64`.
pub uninterp spec fn number_i64(n: Number) -> Option<i64>;

/// `Number::as_i64`: the integer that the number holds, or `None` for a
/// fraction and for an integer above `i64::MAX`.
#[verifier::external_body]
pub(crate) fn number_as_i64(n: &Number) -> (r: Option<i64>)
    ensures
        r == number_i64(*n),
{
    n.as_i64()
}

/// `Number::from(i64)`: a number that holds the integer `i`, so that
/// `as_i64` gives `i` back.
#[verifier::external_body]
pub(crate) fn number_from_i64(i: i64) -> (n: Number)
    ensures
        number_i64(n) == Some(i),
{
    Number::from(i)
}

/// `Number::clone`: the same number again.
pub assume_specification[ <serde_json::Number as Clone>::clone ](n: &Number) -> (r: Number)
    ensures
        r == *n,
;

} // verus!
