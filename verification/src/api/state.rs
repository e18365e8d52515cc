//! Raw hook state: fixed-size reads of a state entry, the little-endian
//! single-value helpers, and the namespace/account targets of foreign
//! state.
//!
//! Reads take the host's `state`/`state_foreign` answer and the buffer it
//! wrote. Writes return the bytes to hand to the host's `state_set`.
//! Read-modify-writes return the value to write back: `f` applied to what
//! was read, `None` for a missing entry.

use vstd::prelude::*;
use crate::bytes::{
    be_u64, le_u32, le_u64, u32_of_le, u64_of_le, u32_from_le, u64_from_le, u32_to_le, u64_to_be,
    u64_to_le,
};
use crate::convert::{exact_read, FixedRead};
use crate::error::{res, HookError, Result};
use crate::reply::{reply_u64, reply_usize, res_u64, res_usize};
use crate::testenv_bridge::{as_int64_spec, right_aligned};
use crate::types::{AccountId, NameSpace, XFL};

verus! {

/// A namespace or account argument of a foreign-state call: absent, or the
/// bytes to pass.
pub trait ForeignRef<'a> {
    /// The bytes passed, if any.
    spec fn target(&self) -> Option<Seq<u8>>;

    /// The bytes to pass, if any.
    fn foreign_ref(self) -> (r: Option<&'a [u8]>)
        ensures
            match r {
                Some(s) => self.target() == Some(s@),
                None => self.target() is None,
            },
    ;
}

impl<'a> ForeignRef<'a> for Option<&'a [u8]> {
    open spec fn target(&self) -> Option<Seq<u8>> {
        match *self {
            Some(s) => Some(s@),
            None => None,
        }
    }

    fn foreign_ref(self) -> (r: Option<&'a [u8]>) {
        self
    }
}

impl<'a> ForeignRef<'a> for &'a [u8] {
    open spec fn target(&self) -> Option<Seq<u8>> {
        Some(self@)
    }

    fn foreign_ref(self) -> (r: Option<&'a [u8]>) {
        Some(self)
    }
}

impl<'a, const N: usize> ForeignRef<'a> for &'a [u8; N] {
    open spec fn target(&self) -> Option<Seq<u8>> {
        Some(self@)
    }

    fn foreign_ref(self) -> (r: Option<&'a [u8]>) {
        Some(self.as_slice())
    }
}

impl<'a> ForeignRef<'a> for &'a AccountId {
    open spec fn target(&self) -> Option<Seq<u8>> {
        Some(self.0@)
    }

    fn foreign_ref(self) -> (r: Option<&'a [u8]>) {
        Some(self.0.as_slice())
    }
}

impl<'a> ForeignRef<'a> for &'a NameSpace {
    open spec fn target(&self) -> Option<Seq<u8>> {
        Some(self.0@)
    }

    fn foreign_ref(self) -> (r: Option<&'a [u8]>) {
        Some(self.0.as_slice())
    }
}

/// A state entry read as exactly a `T`, from the host's `state` answer and
/// the [`FixedRead::READ_LEN`]-byte buffer it wrote.
///
/// # Errors
///
/// The host's error, or [`HookError::TooSmall`] for an entry of any other
/// size.
pub fn state_exact<T: FixedRead>(code: i64, buf: &[u8]) -> (r: Result<T>)
    requires
        buf@.len() == T::READ_LEN,
    ensures
        r == exact_read(reply_usize(code), T::READ_LEN as nat, T::fixed_decoding(buf@)),
{
    T::read_exact(res_usize(code), buf)
}

/// Exactly `buf.len()` bytes: the host's error, or
/// [`HookError::TooSmall`] for any other count.
fn exact_count(code: i64, len: usize) -> (r: Result<()>)
    ensures
        match reply_usize(code) {
            Err(e) => r == Err::<(), HookError>(e),
            Ok(n) => if n == len {
                r is Ok
            } else {
                r == Err::<(), HookError>(HookError::TooSmall)
            },
        },
{
    let n = res_usize(code)?;
    if n != len {
        return Err(HookError::TooSmall);
    }
    Ok(())
}

/// A little-endian `u64` state entry.
///
/// # Errors
///
/// The host's error, or [`HookError::TooSmall`] for an entry that is not 8
/// bytes.
pub fn state_u64_le(code: i64, buf: &[u8]) -> (r: Result<u64>)
    requires
        buf@.len() == 8,
    ensures
        r == exact_read(reply_usize(code), 8, u64_of_le(buf@)),
{
    exact_count(code, 8)?;
    Ok(u64_from_le(buf))
}

/// A little-endian `u32` state entry.
///
/// # Errors
///
/// The host's error, or [`HookError::TooSmall`] for an entry that is not 4
/// bytes.
pub fn state_u32(code: i64, buf: &[u8]) -> (r: Result<u32>)
    requires
        buf@.len() == 4,
    ensures
        r == exact_read(reply_usize(code), 4, u32_of_le(buf@)),
{
    exact_count(code, 4)?;
    Ok(u32_from_le(buf))
}

/// The bytes [`state_set`](crate::api::state) writes for a `u32`: its
/// little-endian encoding.
pub fn state_set_u32(value: u32) -> (bytes: [u8; 4])
    ensures
        bytes@ == le_u32(value),
{
    u32_to_le(value)
}

/// A little-endian `i64` state entry.
///
/// # Errors
///
/// The host's error, or [`HookError::TooSmall`] for an entry that is not 8
/// bytes.
pub fn state_i64(code: i64, buf: &[u8]) -> (r: Result<i64>)
    requires
        buf@.len() == 8,
    ensures
        r == exact_read(reply_usize(code), 8, u64_of_le(buf@) as i64),
{
    exact_count(code, 8)?;
    Ok(u64_from_le(buf) as i64)
}

/// The bytes written for an `i64`: its little-endian encoding.
pub fn state_set_i64(value: i64) -> (bytes: [u8; 8])
    ensures
        bytes@ == le_u64(value as u64),
{
    u64_to_le(value as u64)
}

/// A little-endian [`XFL`] state entry (its raw bit pattern).
///
/// # Errors
///
/// The host's error, or [`HookError::TooSmall`] for an entry that is not 8
/// bytes.
pub fn state_xfl(code: i64, buf: &[u8]) -> (r: Result<XFL>)
    requires
        buf@.len() == 8,
    ensures
        r == exact_read(reply_usize(code), 8, XFL(u64_of_le(buf@) as i64)),
{
    exact_count(code, 8)?;
    Ok(XFL::from_raw_bits(u64_from_le(buf) as i64))
}

/// The bytes written for an [`XFL`]: its raw bits, little-endian.
pub fn state_set_xfl(value: XFL) -> (bytes: [u8; 8])
    ensures
        bytes@ == le_u64(value.0 as u64),
{
    u64_to_le(value.raw_bits() as u64)
}

/// What a read that tells absence apart gives: `None` for a missing entry,
/// `decoded` otherwise.
pub open spec fn or_absent<T>(code: i64, decoded: Result<T>) -> Result<Option<T>> {
    if code == crate::codes::DOESNT_EXIST {
        Ok(None)
    } else {
        match decoded {
            Ok(v) => Ok(Some(v)),
            Err(e) => Err(e),
        }
    }
}

/// `None` for a missing entry, otherwise what `decode` makes of the
/// host's answer.
///
/// # Errors
///
/// `decode`'s error.
pub fn value_or_absent<T, F: FnOnce(i64) -> Result<T>>(code: i64, decode: F) -> (r: Result<Option<T>>)
    requires
        code != crate::codes::DOESNT_EXIST ==> decode.requires((code,)),
    ensures
        code == crate::codes::DOESNT_EXIST ==> r == Ok::<Option<T>, HookError>(None),
        code != crate::codes::DOESNT_EXIST ==> exists|d: Result<T>| #[trigger] decode.ensures((code,), d) && r == or_absent(code, d),
{
    if code == crate::codes::DOESNT_EXIST {
        return Ok(None);
    }
    let d = decode(code);
    let r = match d {
        Ok(v) => Ok(Some(v)),
        Err(e) => Err(e),
    };
    assert(decode.ensures((code,), d) && r == or_absent(code, d));
    r
}

/// What a read-modify-write of a `u64` entry returns: the read's error, or
/// a value `f` gives for what was read.
pub open spec fn updated<T, F: FnOnce(Option<T>) -> T>(read: Result<Option<T>>, f: F, r: Result<T>) -> bool {
    match read {
        Err(e) => r == Err::<T, HookError>(e),
        Ok(cur) => r is Ok && f.ensures((cur,), r->Ok_0),
    }
}

/// The value a read-modify-write of a `u64` entry writes back (big-endian,
/// see [`state_update_u64_bytes`]), from the host's as-int64 `state`
/// answer.
///
/// # Errors
///
/// The read's error; `f` is then not called.
pub fn state_update_u64<F: FnOnce(Option<u64>) -> u64>(code: i64, f: F) -> (r: Result<u64>)
    requires
        forall|x: Option<u64>| f.requires((x,)),
    ensures
        updated(or_absent(code, reply_u64(code)), f, r),
{
    let current = if code == crate::codes::DOESNT_EXIST {
        None
    } else {
        Some(res_u64(code)?)
    };
    Ok(f(current))
}

/// The bytes a `u64` read-modify-write writes back: big-endian.
pub fn state_update_u64_bytes(next: u64) -> (bytes: [u8; 8])
    ensures
        bytes@ == be_u64(next),
{
    u64_to_be(next)
}

/// The value a read-modify-write of a little-endian `u32` entry writes
/// back, from the host's `state` answer and the 4-byte buffer it wrote.
///
/// # Errors
///
/// The read's error; `f` is then not called.
pub fn state_update_u32<F: FnOnce(Option<u32>) -> u32>(code: i64, buf: &[u8], f: F) -> (r: Result<u32>)
    requires
        buf@.len() == 4,
        forall|x: Option<u32>| f.requires((x,)),
    ensures
        updated(or_absent(code, exact_read(reply_usize(code), 4, u32_of_le(buf@))), f, r),
{
    let current = if code == crate::codes::DOESNT_EXIST {
        None
    } else {
        Some(state_u32(code, buf)?)
    };
    Ok(f(current))
}

/// The value a read-modify-write of a little-endian `i64` entry writes
/// back.
///
/// # Errors
///
/// The read's error; `f` is then not called.
pub fn state_update_i64<F: FnOnce(Option<i64>) -> i64>(code: i64, buf: &[u8], f: F) -> (r: Result<i64>)
    requires
        buf@.len() == 8,
        forall|x: Option<i64>| f.requires((x,)),
    ensures
        updated(or_absent(code, exact_read(reply_usize(code), 8, u64_of_le(buf@) as i64)), f, r),
{
    let current = if code == crate::codes::DOESNT_EXIST {
        None
    } else {
        Some(state_i64(code, buf)?)
    };
    Ok(f(current))
}

/// The value a read-modify-write of an [`XFL`] entry writes back.
///
/// # Errors
///
/// The read's error; `f` is then not called.
pub fn state_update_xfl<F: FnOnce(Option<XFL>) -> XFL>(code: i64, buf: &[u8], f: F) -> (r: Result<XFL>)
    requires
        buf@.len() == 8,
        forall|x: Option<XFL>| f.requires((x,)),
    ensures
        updated(or_absent(code, exact_read(reply_usize(code), 8, XFL(u64_of_le(buf@) as i64))), f, r),
{
    let current = if code == crate::codes::DOESNT_EXIST {
        None
    } else {
        Some(state_xfl(code, buf)?)
    };
    Ok(f(current))
}

/// A little-endian `u64` entry of another namespace or account, from the
/// host's `state_foreign` answer and the 8-byte buffer it wrote: the
/// foreign counterpart of [`state_u64_le`].
///
/// # Errors
///
/// The host's error, or [`HookError::TooSmall`] for an entry that is not 8
/// bytes.
pub fn state_foreign_u64_le(code: i64, raw: &[u8; 8]) -> (r: Result<u64>)
    ensures
        r == exact_read(reply_usize(code), 8, u64_of_le(raw@)),
{
    exact_count(code, 8)?;
    Ok(u64_from_le(raw.as_slice()))
}

/// What a read-modify-write returns once its new value `next` was handed
/// to the host's `state_set`: `next` when the write succeeded, its error
/// otherwise.
///
/// # Errors
///
/// The host's `state_set` error.
pub fn state_update_written<T>(next: T, set_code: i64) -> (r: Result<T>)
    ensures
        set_code < 0 ==> r == Err::<T, HookError>(HookError::of(set_code)),
        set_code >= 0 ==> r == Ok::<T, HookError>(next),
{
    match res(set_code) {
        Ok(_) => Ok(next),
        Err(e) => Err(e),
    }
}

/// A `u64` written back by a read-modify-write reads back the same in the
/// host's as-int64 mode, as long as its top bit is clear: the eight
/// big-endian bytes [`state_update_u64_bytes`] hands over are the value the
/// as-int64 answer gives.
pub proof fn lemma_update_u64_reads_back(n: u64)
    requires
        n < 0x8000_0000_0000_0000,
    ensures
        as_int64_spec(Ok(be_u64(n))) == n as i64,
        reply_u64(as_int64_spec(Ok(be_u64(n)))) == Ok::<u64, HookError>(n),
{
    crate::bytes::lemma_u64_be_round_trip(n, be_u64(n));
    assert(right_aligned(be_u64(n)) =~= be_u64(n));
}

} // verus!
