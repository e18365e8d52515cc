//! Slots: fixed-size reads of a slot's serialized contents.

use vstd::prelude::*;
use crate::convert::{exact_read, FixedRead};
use crate::error::Result;
use crate::reply::{reply_usize, res_usize};

verus! {

/// A slot's contents read as exactly a `T`, from the host's `slot` answer
/// and the [`FixedRead::READ_LEN`]-byte buffer it wrote.
///
/// # Errors
///
/// The host's error, or [`crate::error::HookError::TooSmall`] for contents
/// of any other size.
pub fn slot_exact<T: FixedRead>(code: i64, buf: &[u8]) -> (r: Result<T>)
    requires
        buf@.len() == T::READ_LEN,
    ensures
        r == exact_read(reply_usize(code), T::READ_LEN as nat, T::fixed_decoding(buf@)),
{
    T::read_exact(res_usize(code), buf)
}

} // verus!
