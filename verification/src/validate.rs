//! Validation of identifiers arriving over the deep-link flow.

use vstd::prelude::*;
use vstd::string::StrSliceExecFns;
use crate::text::{is_digit_char, trim_char_bounds, trim_chars};

verus! {

/// A plausible Discord snowflake id: after trimming whitespace, 6 to 32
/// characters, all of them decimal digits.
pub open spec fn spec_valid_snowflake(s: Seq<char>) -> bool {
    let t = trim_chars(s);
    6 <= t.len() <= 32 && (forall|i: int| 0 <= i < t.len() ==> is_digit_char(t[i]))
}

/// Whether a value carried by a deep link is a plausible Discord
/// snowflake id.
pub fn is_valid_discord_snowflake(value: &str) -> (r: bool)
    ensures
        r == spec_valid_snowflake(value@),
{
    let (lo, hi) = trim_char_bounds(value);
    let len = hi - lo;
    if len < 6 || len > 32 {
        return false;
    }
    let ghost t = trim_chars(value@);
    let mut i: usize = lo;
    while i < hi
        invariant
            lo <= i <= hi <= value@.len(),
            t == trim_chars(value@),
            t =~= value@.subrange(lo as int, hi as int),
            forall|k: int| 0 <= k < i - lo ==> is_digit_char(t[k]),
        decreases hi - i,
    {
        let c = value.get_char(i);
        proof {
            assert(c == t[i - lo]);
        }
        let u = c as u32;
        if u < 48 || u > 57 {
            proof {
                assert(0 <= i - lo < t.len());
                assert(!is_digit_char(t[i - lo]));
            }
            return false;
        }
        i = i + 1;
    }
    true
}

} // verus!
