//! Turning the Hook API's raw `i64` answers into typed results: a negative
//! answer is the matching [`HookError`], anything else is the payload, cast
//! to the width the call documents.

use vstd::prelude::*;
use crate::error::{res, HookError, Result};

verus! {

/// What [`res_usize`] returns for `c`.
pub open spec fn reply_usize(c: i64) -> Result<usize> {
    if c < 0 {
        Err(HookError::of(c))
    } else {
        Ok(c as usize)
    }
}

/// What [`res_u32`] returns for `c`.
pub open spec fn reply_u32(c: i64) -> Result<u32> {
    if c < 0 {
        Err(HookError::of(c))
    } else {
        Ok(c as u32)
    }
}

/// What [`res_u64`] returns for `c`.
pub open spec fn reply_u64(c: i64) -> Result<u64> {
    if c < 0 {
        Err(HookError::of(c))
    } else {
        Ok(c as u64)
    }
}

/// A byte count answered by the host.
pub fn res_usize(c: i64) -> (r: Result<usize>)
    ensures
        r == reply_usize(c),
{
    match res(c) {
        Ok(v) => Ok(v as usize),
        Err(e) => Err(e),
    }
}

/// A 32-bit payload (slot number, size, count, type code) answered by the
/// host.
pub fn res_u32(c: i64) -> (r: Result<u32>)
    ensures
        r == reply_u32(c),
{
    match res(c) {
        Ok(v) => Ok(v as u32),
        Err(e) => Err(e),
    }
}

/// A 64-bit payload answered by the host.
pub fn res_u64(c: i64) -> (r: Result<u64>)
    ensures
        r == reply_u64(c),
{
    match res(c) {
        Ok(v) => Ok(v as u64),
        Err(e) => Err(e),
    }
}

} // verus!
