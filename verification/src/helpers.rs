//! Small predicates on text.

use vstd::prelude::*;
use vstd::string::*;
use crate::text::{decimal, unicode_alphanumeric, unicode_whitespace, write_decimal};

verus! {

/// A message without content.
#[derive(Clone, Copy, Debug, PartialEq, Eq, Structural)]
pub struct EmptyPayload;

/// The time stamp that names a stored item: `millis`, the milliseconds since
/// the epoch, in base ten.
pub fn get_timestamp(millis: u128) -> (r: String)
    ensures
        r@ == decimal(millis as nat),
{
    let mut out = String::new();
    write_decimal(millis, &mut out);
    out
}

/// Every character is alphanumeric or whitespace.
pub open spec fn alphanumeric_or_space(s: Seq<char>) -> bool {
    forall|i: int| 0 <= i < s.len() ==> unicode_alphanumeric(s[i]) || unicode_whitespace(s[i])
}

/// Whether `s` consists of alphanumeric and whitespace characters only. The
/// empty string does.
pub fn is_alphanumeric_or_space(s: &str) -> (r: bool)
    ensures
        r == alphanumeric_or_space(s@),
{
    let n: usize = s.unicode_len();
    let mut i: usize = 0;
    while i < n
        invariant
            n == s@.len(),
            i <= n,
            forall|k: int| 0 <= k < i ==> unicode_alphanumeric(s@[k]) || unicode_whitespace(s@[k]),
        decreases n - i,
    {
        let c: char = s.get_char(i);
        if !(c.is_alphanumeric() || c.is_whitespace()) {
            return false;
        }
        i += 1;
    }
    true
}

} // verus!
