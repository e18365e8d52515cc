//! Emitted transactions: nonces.

use vstd::prelude::*;
use crate::convert::{array_of, exact_array_read, exact_read};
use crate::error::Result;
use crate::reply::{reply_usize, res_usize};
use crate::types::Nonce;

verus! {

/// A fresh nonce, from the host's `etxn_nonce` answer and the 32-byte
/// buffer it wrote.
///
/// # Errors
///
/// The host's error, or [`crate::error::HookError::TooSmall`] for a nonce
/// that is not 32 bytes.
pub fn etxn_nonce_buf(code: i64, buf: &[u8]) -> (r: Result<Nonce>)
    requires
        buf@.len() == 32,
    ensures
        r == exact_read(reply_usize(code), 32, Nonce(array_of(buf@))),
{
    let b: [u8; 32] = exact_array_read(res_usize(code), buf)?;
    Ok(Nonce(b))
}

} // verus!
