//! Comparison of string slices by content.

use vstd::prelude::*;
use vstd::string::StringSliceAdditionalSpecFns;
use vstd::utf8::encode_utf8_decode_utf8;

verus! {

/// The UTF-8 encoding determines the text: two slices with the same bytes
/// hold the same characters.
pub proof fn same_bytes_same_text(left: &str, right: &str)
    requires
        left.spec_bytes() == right.spec_bytes(),
    ensures
        left@ == right@,
{
    encode_utf8_decode_utf8(left@);
    encode_utf8_decode_utf8(right@);
}

/// Whether two string slices hold the same characters.
pub fn same_text(left: &str, right: &str) -> (same: bool)
    ensures
        same == (left@ == right@),
{
    let a = left.as_bytes();
    let b = right.as_bytes();
    if a.len() != b.len() {
        return false;
    }
    let mut at: usize = 0;
    while at < a.len()
        invariant
            at <= a.len(),
            a.len() == b.len(),
            a@ == left.spec_bytes(),
            b@ == right.spec_bytes(),
            forall|k: int| 0 <= k < at ==> a@[k] == b@[k],
        decreases a.len() - at,
    {
        if a[at] != b[at] {
            assert(left.spec_bytes()[at as int] != right.spec_bytes()[at as int]);
            return false;
        }
        at += 1;
    }
    proof {
        assert(a@ =~= b@);
        same_bytes_same_text(left, right);
    }
    true
}

} // verus!
