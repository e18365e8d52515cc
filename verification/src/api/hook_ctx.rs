//! The executing hook's own account, hash and parameters.

use vstd::prelude::*;
use crate::convert::{exact_read, FixedRead, TypedParamName};
use crate::error::{res, HookError, Result};
use crate::reply::{reply_usize, res_usize};
use crate::types::AccountId;

verus! {

/// What a read into a fixed buffer gives when only the host's sign
/// matters: its error, or the buffer it filled.
pub open spec fn filled<T>(code: i64, value: T) -> Result<T> {
    if code < 0 {
        Err(HookError::of(code))
    } else {
        Ok(value)
    }
}

/// The hook's account, from the host's `hook_account` answer and the
/// 20-byte buffer it wrote.
///
/// # Errors
///
/// The host's error for a negative answer.
pub fn hook_account_buf(code: i64, buf: &[u8; 20]) -> (r: Result<AccountId>)
    ensures
        r == filled(code, AccountId(*buf)),
{
    res(code)?;
    Ok(AccountId(*buf))
}

/// Hook `hook_no`'s hash, from the host's `hook_hash` answer and the
/// 32-byte buffer it wrote.
///
/// # Errors
///
/// The host's error for a negative answer.
pub fn hook_hash_buf(code: i64, buf: &[u8; 32]) -> (r: Result<crate::types::Hash>)
    ensures
        r == filled(code, crate::types::Hash(*buf)),
{
    res(code)?;
    Ok(crate::types::Hash(*buf))
}

/// The size of the buffer a hook parameter of type `T` is read into: one
/// byte more than `T`. The host's `hook_param` truncates a value longer than
/// its buffer, so the extra byte is what shows such a value: the host then
/// reports more bytes than `T` holds.
pub open spec fn param_buf_len<T: FixedRead>() -> nat {
    T::READ_LEN as nat + 1
}

/// What reading a hook parameter as exactly a `T` gives, when the host
/// answered `code` and wrote `bytes` ([`param_buf_len`] of them): the host's
/// error, [`HookError::TooSmall`] for a count other than `T`'s size (a
/// longer value reports at least one byte more), and otherwise the value
/// the first bytes decode to.
pub open spec fn param_exact_reply<T: FixedRead>(code: i64, bytes: Seq<u8>) -> Result<T> {
    exact_read(
        reply_usize(code),
        T::READ_LEN as nat,
        T::fixed_decoding(bytes.subrange(0, T::READ_LEN as int)),
    )
}

/// A parameter of this hook read as exactly a `T`, from the host's
/// `hook_param` answer and the [`param_buf_len`]-byte buffer it wrote.
///
/// # Errors
///
/// The host's error, or [`HookError::TooSmall`] for a value of any other
/// size, shorter or longer.
pub fn hook_param_exact<T: FixedRead>(code: i64, buf: &[u8]) -> (r: Result<T>)
    requires
        buf@.len() == param_buf_len::<T>(),
    ensures
        r == param_exact_reply::<T>(code, buf@),
{
    let n = T::READ_LEN;
    T::read_exact(res_usize(code), vstd::slice::slice_subrange(buf, 0, n))
}

/// As [`hook_param_exact`], for the value type `name` fixes; the caller
/// reads the parameter named [`TypedParamName::name_bytes`].
///
/// # Errors
///
/// As [`hook_param_exact`].
pub fn hook_param_typed<N: TypedParamName>(name: &N, code: i64, buf: &[u8]) -> (r: Result<N::Value>)
    requires
        buf@.len() == param_buf_len::<N::Value>(),
    ensures
        r == param_exact_reply::<N::Value>(code, buf@),
{
    hook_param_exact::<N::Value>(code, buf)
}

/// What an absence-aware read of an exactly-sized value gives: `None` when
/// the host answered that it does not exist, the exact read otherwise.
pub open spec fn param_opt_reply<T: FixedRead>(code: i64, bytes: Seq<u8>) -> Result<Option<T>> {
    if code == crate::codes::DOESNT_EXIST {
        Ok(None)
    } else {
        match exact_read(reply_usize(code), T::READ_LEN as nat, T::fixed_decoding(bytes)) {
            Ok(v) => Ok(Some(v)),
            Err(e) => Err(e),
        }
    }
}

/// What an absence-aware hook-parameter read gives: `None` when the host
/// answered that the parameter does not exist, [`param_exact_reply`]
/// otherwise.
pub open spec fn hook_param_opt_reply<T: FixedRead>(code: i64, bytes: Seq<u8>) -> Result<Option<T>> {
    if code == crate::codes::DOESNT_EXIST {
        Ok(None)
    } else {
        match param_exact_reply::<T>(code, bytes) {
            Ok(v) => Ok(Some(v)),
            Err(e) => Err(e),
        }
    }
}

/// A parameter of this hook, `None` when absent; a present value of the
/// wrong size is still an error.
///
/// # Errors
///
/// As [`hook_param_exact`], for a present parameter.
pub fn hook_param_opt<T: FixedRead>(code: i64, buf: &[u8]) -> (r: Result<Option<T>>)
    requires
        buf@.len() == param_buf_len::<T>(),
    ensures
        r == hook_param_opt_reply::<T>(code, buf@),
{
    if code == crate::codes::DOESNT_EXIST {
        return Ok(None);
    }
    match hook_param_exact::<T>(code, buf) {
        Ok(v) => Ok(Some(v)),
        Err(e) => Err(e),
    }
}

} // verus!
