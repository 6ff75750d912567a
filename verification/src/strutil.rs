//! Small verified helpers for comparing and assembling strings.

use vstd::prelude::*;

verus! {

/// Character-wise equality test between two string slices, usable where the
/// contracts speak of the views of the strings.
pub fn str_eq(a: &str, b: &str) -> (r: bool)
    ensures
        r == (a@ == b@),
{
    let an: usize = a.unicode_len();
    let bn: usize = b.unicode_len();
    if an != bn {
        return false;
    }
    let mut i: usize = 0;
    while i < an
        invariant
            i <= an,
            a@.len() == an,
            b@.len() == an,
            forall|j: int| 0 <= j < i ==> a@[j] == b@[j],
        decreases an - i,
    {
        let ca: char = a.get_char(i);
        let cb: char = b.get_char(i);
        if ca != cb {
            return false;
        }
        i = i + 1;
    }
    proof {
        assert(a@ =~= b@);
    }
    true
}

/// Concatenation of a prefix literal and a suffix, for building the error
/// messages that the operations report.
pub fn concat_str(prefix: &str, suffix: &str) -> (r: String)
    ensures
        r@ == prefix@ + suffix@,
{
    let mut m: String = prefix.to_owned();
    m.append(suffix);
    m
}

} // verus!
