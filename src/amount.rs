//! Token amounts in their textual form: non-negative integers of any size,
//! written in decimal.

use vstd::prelude::*;
use crate::text::{all_digits, digits_from};

verus! {

/// Whether `s` is a decimal amount: one digit or more, and nothing else.
pub open spec fn is_amount(s: Seq<char>) -> bool {
    s.len() > 0 && all_digits(s)
}

pub fn check_amount(s: &str) -> (r: bool)
    ensures
        r == is_amount(s@),
{
    let n = s.unicode_len();
    if n == 0 {
        return false;
    }
    let ok = digits_from(s, 0);
    assert(s@.subrange(0, n as int) =~= s@);
    ok
}

} // verus!
