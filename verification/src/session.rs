//! The decision that keeps a session going: reading the player's answer
//! to the continue/stop question. The prompt itself is console work and
//! stays outside this crate.

use vstd::prelude::*;

use vstd::string::StrSliceExecFns;

verus! {

/// The replies that count as "play another round".
pub open spec fn is_affirmative(s: Seq<char>) -> bool {
    ||| s == "y"@
    ||| s == "Y"@
    ||| s == "yes"@
    ||| s == "Yes"@
    ||| s == "yeah"@
    ||| s == "Yeah"@
}

/// Character-for-character equality of two string slices.
fn str_eq(a: &str, b: &str) -> (r: bool)
    ensures
        r <==> a@ == b@,
{
    let n = a.unicode_len();
    if n != b.unicode_len() {
        return false;
    }
    let mut k: usize = 0;
    while k < n
        invariant
            k <= n,
            n == a@.len(),
            n == b@.len(),
            forall|i: int| 0 <= i < k ==> a@[i] == b@[i],
        decreases n - k,
    {
        if a.get_char(k) != b.get_char(k) {
            return false;
        }
        k += 1;
    }
    proof {
        assert(a@ =~= b@);
    }
    true
}

/// Decides the continue/stop question from the player's trimmed reply:
/// an affirmative token means another round, anything else ends the
/// session.
pub fn check_if_continue(input: &str) -> (r: Option<bool>)
    ensures
        r == Some(true) <==> is_affirmative(input@),
        r is None <==> !is_affirmative(input@),
{
    if str_eq(input, "y") || str_eq(input, "Y") || str_eq(input, "yes") || str_eq(input, "Yes")
        || str_eq(input, "yeah") || str_eq(input, "Yeah") {
        Some(true)
    } else {
        None
    }
}

} // verus!
