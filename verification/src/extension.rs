//! Extension identity: matching queried identifier strings against the
//! closed set of names an extension answers to.
//!
//! Every extension is identified by a stable current name and zero or more
//! deprecated compatibility aliases. A capability lookup succeeds exactly
//! when the queried name equals one of the members; only after such a match
//! may the opaque table pointer the lookup produced be reinterpreted as the
//! extension's concrete table layout. The typed handles in the extension
//! modules gate that reinterpretation on this match.

use vstd::prelude::*;
use vstd::string::StrSliceExecFns;

verus! {

/// Character-for-character string equality.
pub fn str_eq(a: &str, b: &str) -> (r: bool)
    ensures
        r == (a@ == b@),
{
    let a_len = a.unicode_len();
    let b_len = b.unicode_len();
    if a_len != b_len {
        proof {
            if a@ == b@ {
                assert(a@.len() == b@.len());
            }
        }
        return false;
    }
    let mut i: usize = 0;
    while i < a_len
        invariant
            i <= a_len,
            a_len == a@.len(),
            a_len == b@.len(),
            forall|j: int| 0 <= j < i ==> a@[j] == b@[j],
        decreases a_len - i,
    {
        if a.get_char(i) != b.get_char(i) {
            proof {
                if a@ == b@ {
                    assert(a@[i as int] == b@[i as int]);
                }
            }
            return false;
        }
        i = i + 1;
    }
    proof {
        assert(a@ =~= b@);
    }
    true
}

/// Whether a queried extension name equals the current identifier or the
/// deprecated compatibility alias of an extension.
pub fn identifier_matches(name: &str, current: &str, compat: &str) -> (r: bool)
    ensures
        r == (name@ == current@ || name@ == compat@),
{
    str_eq(name, current) || str_eq(name, compat)
}

} // verus!
