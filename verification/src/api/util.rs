//! Utility calls: address conversion, hashing and raw keylets.

use vstd::prelude::*;
use crate::api::hook_ctx::filled;
use crate::convert::{array_of, exact_array_read, exact_read};
use crate::error::{res, Result};
use crate::reply::{reply_usize, res_usize};
use crate::types::{AccountId, Keylet};

verus! {

/// The account ID of an r-address, from the host's `util_accid` answer and
/// the 20-byte buffer it wrote.
///
/// # Errors
///
/// The host's error for a negative answer.
pub fn util_accid_buf(code: i64, buf: &[u8; 20]) -> (r: Result<AccountId>)
    ensures
        r == filled(code, AccountId(*buf)),
{
    res(code)?;
    Ok(AccountId(*buf))
}

/// The SHA-512-half of some data, from the host's `util_sha512h` answer and
/// the 32-byte buffer it wrote.
///
/// # Errors
///
/// The host's error for a negative answer.
pub fn util_sha512h_buf(code: i64, buf: &[u8; 32]) -> (r: Result<crate::types::Hash>)
    ensures
        r == filled(code, crate::types::Hash(*buf)),
{
    res(code)?;
    Ok(crate::types::Hash(*buf))
}

/// A keylet, from the host's `util_keylet` answer and the 34-byte buffer
/// it wrote.
///
/// # Errors
///
/// The host's error, or [`crate::error::HookError::TooSmall`] for a
/// keylet that is not 34 bytes.
pub fn util_keylet_buf(code: i64, buf: &[u8]) -> (r: Result<Keylet>)
    requires
        buf@.len() == 34,
    ensures
        r == exact_read(reply_usize(code), 34, Keylet(array_of(buf@))),
{
    let b: [u8; 34] = exact_array_read(res_usize(code), buf)?;
    Ok(Keylet(b))
}

} // verus!
