//! The declared-name rule shared by the parameter-signature and
//! state-interface drafts: `[A-Za-z][A-Za-z0-9]*`, 1 to 16 bytes.

use vstd::prelude::*;

verus! {

/// Whether `b` is an ASCII letter.
pub open spec fn is_alpha(b: u8) -> bool {
    (0x41 <= b <= 0x5A) || (0x61 <= b <= 0x7A)
}

/// Whether `b` is an ASCII letter or digit.
pub open spec fn is_alnum(b: u8) -> bool {
    is_alpha(b) || (0x30 <= b <= 0x39)
}

/// Whether `name` follows the rule: 1 to 16 bytes, a letter first, letters
/// and digits after.
pub open spec fn valid_name(name: Seq<u8>) -> bool {
    &&& 1 <= name.len() <= 16
    &&& is_alpha(name[0])
    &&& forall|i: int| 1 <= i < name.len() ==> is_alnum(#[trigger] name[i])
}

/// Whether `name` matches `[A-Za-z][A-Za-z0-9]*` and is 1 to 16 bytes long.
pub fn is_valid_name(name: &[u8]) -> (r: bool)
    ensures
        r == valid_name(name@),
{
    let n = name.len();
    if n == 0 || n > 16 {
        return false;
    }
    let b0 = name[0];
    if !((0x41 <= b0 && b0 <= 0x5A) || (0x61 <= b0 && b0 <= 0x7A)) {
        return false;
    }
    let mut i: usize = 1;
    while i < n
        invariant
            n == name@.len(),
            1 <= i <= n,
            forall|j: int| 1 <= j < i ==> is_alnum(#[trigger] name@[j]),
        decreases n - i,
    {
        let b = name[i];
        if !((0x41 <= b && b <= 0x5A) || (0x61 <= b && b <= 0x7A) || (0x30 <= b && b <= 0x39)) {
            assert(!is_alnum(name@[i as int]));
            return false;
        }
        i = i + 1;
    }
    true
}

} // verus!
