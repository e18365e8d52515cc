//! The host's buffer contract, for a native stand-in host that answers with
//! owned values (`Ok(bytes)` or `Err(code)`): how such an answer lands in a
//! caller's buffer and what the Hook API would have returned for it.
//!
//! A destination shorter than the value is [`HookError::TooSmall`]; it is
//! never truncated, except by [`write_bytes_truncate`] and
//! [`write_bytes_truncate_code`], which follow `hook_param`'s own
//! truncating behaviour.

use vstd::prelude::*;
use crate::bytes::{u64_of_be, u64_from_be};
use crate::convert::{array_from, write_front, written_into};
use crate::error::{HookError, Result};
use crate::reply::reply_usize;
use crate::types::Keylet;

verus! {

/// `out` after an answer `value` was written into it: the value at its
/// front when it fits, unchanged otherwise.
pub open spec fn after_write(out: Seq<u8>, value: Seq<u8>) -> Seq<u8> {
    written_into(out, value)
}

/// What a buffer-filling call returns for a stand-in answer: the value's
/// length when it fits, [`HookError::TooSmall`] when it does not, the
/// code's error (or its count) for an `Err(code)` answer.
pub open spec fn written_reply(out_len: nat, r: core::result::Result<Seq<u8>, i64>) -> Result<usize> {
    match r {
        Ok(value) => if value.len() <= out_len {
            Ok(value.len() as usize)
        } else {
            Err(HookError::TooSmall)
        },
        Err(code) => reply_usize(code),
    }
}

/// Writes a stand-in answer into `out`, never truncating.
///
/// # Errors
///
/// [`HookError::TooSmall`] when the value does not fit; the code's error
/// for an `Err(code)` answer.
pub fn write_bytes(out: &mut [u8], r: core::result::Result<Vec<u8>, i64>) -> (n: Result<usize>)
    ensures
        n == written_reply(
            old(out)@.len(),
            match r {
                Ok(v) => Ok(v@),
                Err(c) => Err(c),
            },
        ),
        final(out)@ == (match r {
            Ok(v) => after_write(old(out)@, v@),
            Err(_) => old(out)@,
        }),
{
    match r {
        Ok(value) => {
            if value.len() > out.len() {
                return Err(HookError::TooSmall);
            }
            let n = write_front(out, value.as_slice());
            Ok(n)
        },
        Err(code) => crate::reply::res_usize(code),
    }
}

/// Writes a fixed-size stand-in answer into `out`, never truncating.
///
/// # Errors
///
/// As [`write_bytes`].
pub fn write_array<const N: usize>(out: &mut [u8], r: core::result::Result<[u8; N], i64>) -> (n: Result<usize>)
    ensures
        n == written_reply(
            old(out)@.len(),
            match r {
                Ok(v) => Ok(v@),
                Err(c) => Err(c),
            },
        ),
        final(out)@ == (match r {
            Ok(v) => after_write(old(out)@, v@),
            Err(_) => old(out)@,
        }),
{
    match r {
        Ok(value) => {
            if N > out.len() {
                return Err(HookError::TooSmall);
            }
            let n = write_front(out, value.as_slice());
            Ok(n)
        },
        Err(code) => crate::reply::res_usize(code),
    }
}

/// `out` after as much of `value` as fits was written at its front.
pub open spec fn truncated_into(out: Seq<u8>, value: Seq<u8>) -> Seq<u8> {
    let n = if value.len() <= out.len() {
        value.len()
    } else {
        out.len()
    };
    value.subrange(0, n as int) + out.subrange(n as int, out.len() as int)
}

/// Copies as much of `value` as fits into the front of `out`, returning
/// how many bytes that was.
fn copy_truncating(out: &mut [u8], value: &[u8]) -> (n: usize)
    ensures
        n == (if value@.len() <= old(out)@.len() {
            value@.len()
        } else {
            old(out)@.len()
        }),
        final(out)@ == truncated_into(old(out)@, value@),
{
    let n = if value.len() <= out.len() {
        value.len()
    } else {
        out.len()
    };
    let part = vstd::slice::slice_subrange(value, 0, n);
    let _ = write_front(out, part);
    n
}

/// Writes as much of a stand-in answer as fits (the `hook_param`
/// behaviour: an undersized destination truncates).
///
/// # Errors
///
/// The code's error for an `Err(code)` answer.
pub fn write_bytes_truncate(out: &mut [u8], r: core::result::Result<Vec<u8>, i64>) -> (n: Result<usize>)
    ensures
        match r {
            Ok(v) => {
                &&& n == Ok::<usize, HookError>(
                    if v@.len() <= old(out)@.len() {
                        v@.len() as usize
                    } else {
                        old(out)@.len() as usize
                    },
                )
                &&& final(out)@ == truncated_into(old(out)@, v@)
            },
            Err(c) => n == reply_usize(c) && final(out)@ == old(out)@,
        },
{
    match r {
        Ok(value) => Ok(copy_truncating(out, value.as_slice())),
        Err(code) => crate::reply::res_usize(code),
    }
}

/// As [`write_bytes_truncate`], returning the raw Hook API code.
pub fn write_bytes_truncate_code(out: &mut [u8], r: core::result::Result<Vec<u8>, i64>) -> (c: i64)
    requires
        old(out)@.len() <= i64::MAX,
    ensures
        match r {
            Ok(v) => {
                &&& c == (if v@.len() <= old(out)@.len() {
                    v@.len()
                } else {
                    old(out)@.len()
                })
                &&& final(out)@ == truncated_into(old(out)@, v@)
            },
            Err(code) => c == code && final(out)@ == old(out)@,
        },
{
    match r {
        Ok(value) => {
            let n = copy_truncating(out, value.as_slice());
            n as i64
        },
        Err(code) => code,
    }
}

/// As [`write_bytes`], returning the raw Hook API code.
pub fn write_bytes_code(out: &mut [u8], r: core::result::Result<Vec<u8>, i64>) -> (c: i64)
    requires
        old(out)@.len() <= i64::MAX,
    ensures
        match r {
            Ok(v) => if v@.len() <= old(out)@.len() {
                c == v@.len() && final(out)@ == after_write(old(out)@, v@)
            } else {
                c == crate::codes::TOO_SMALL && final(out)@ == old(out)@
            },
            Err(code) => c == code && final(out)@ == old(out)@,
        },
{
    match r {
        Ok(value) => {
            if value.len() > out.len() {
                return crate::codes::TOO_SMALL;
            }
            let n = write_front(out, value.as_slice());
            n as i64
        },
        Err(code) => code,
    }
}

/// The namespace and account of a foreign-state call, checked to be 32 and
/// 20 bytes.
pub open spec fn foreign_target_spec(ns: Option<Seq<u8>>, acc: Option<Seq<u8>>) -> core::result::Result<
    (Option<Seq<u8>>, Option<Seq<u8>>),
    i64,
> {
    if ns matches Some(n) && n.len() != 32 {
        Err(crate::codes::INVALID_ARGUMENT)
    } else if acc matches Some(a) && a.len() != 20 {
        Err(crate::codes::INVALID_ACCOUNT)
    } else {
        Ok((ns, acc))
    }
}

/// Checks the namespace (32 bytes) and account (20 bytes) of a
/// foreign-state call, as the host does.
///
/// # Errors
///
/// `INVALID_ARGUMENT` for a namespace of another length, then
/// `INVALID_ACCOUNT` for an account of another length.
pub fn foreign_target(ns: Option<&[u8]>, acc: Option<&[u8]>) -> (r: core::result::Result<
    (Option<[u8; 32]>, Option<[u8; 20]>),
    i64,
>)
    ensures
        match foreign_target_spec(
            match ns {
                Some(n) => Some(n@),
                None => None,
            },
            match acc {
                Some(a) => Some(a@),
                None => None,
            },
        ) {
            Err(c) => r == Err::<(Option<[u8; 32]>, Option<[u8; 20]>), i64>(c),
            Ok(_) => r matches Ok((n, a)) && (match (ns, n) {
                (Some(s), Some(x)) => x@ == s@,
                (None, None) => true,
                _ => false,
            }) && (match (acc, a) {
                (Some(s), Some(x)) => x@ == s@,
                (None, None) => true,
                _ => false,
            }),
        },
{
    let n: Option<[u8; 32]> = match ns {
        None => None,
        Some(bytes) => {
            if bytes.len() != 32 {
                return Err(crate::codes::INVALID_ARGUMENT);
            }
            Some(array_from(bytes))
        },
    };
    let a: Option<[u8; 20]> = match acc {
        None => None,
        Some(bytes) => {
            if bytes.len() != 20 {
                return Err(crate::codes::INVALID_ACCOUNT);
            }
            Some(array_from(bytes))
        },
    };
    Ok((n, a))
}

/// The 8 bytes `value` occupies when packed right-aligned, big-endian.
pub open spec fn right_aligned(value: Seq<u8>) -> Seq<u8> {
    Seq::new((8 - value.len()) as nat, |i: int| 0u8) + value
}

/// The Hook API's as-int64 answer for a stand-in value: the value read as a
/// big-endian integer, or `TOO_BIG` when it is longer than 8 bytes or its
/// top bit is set.
pub open spec fn as_int64_spec(r: core::result::Result<Seq<u8>, i64>) -> i64 {
    match r {
        Err(code) => code,
        Ok(value) => if value.len() > 8 {
            crate::codes::TOO_BIG
        } else if u64_of_be(right_aligned(value)) >= 0x8000_0000_0000_0000 {
            crate::codes::TOO_BIG
        } else {
            u64_of_be(right_aligned(value)) as i64
        },
    }
}

/// The Hook API's as-int64 answer for a stand-in value.
pub fn as_int64_code(r: core::result::Result<Vec<u8>, i64>) -> (c: i64)
    ensures
        c == as_int64_spec(match r {
            Ok(v) => Ok(v@),
            Err(code) => Err(code),
        }),
{
    match r {
        Ok(value) => {
            if value.len() > 8 {
                return crate::codes::TOO_BIG;
            }
            let mut buf = [0u8; 8];
            let start = 8 - value.len();
            let mut i: usize = 0;
            while i < value.len()
                invariant
                    value@.len() <= 8,
                    start == 8 - value@.len(),
                    buf@.len() == 8,
                    i <= value@.len(),
                    buf@.subrange(0, start as int) == Seq::new(start as nat, |k: int| 0u8),
                    buf@.subrange(start as int, start + i) == value@.subrange(0, i as int),
                decreases value@.len() - i,
            {
                buf[start + i] = value[i];
                assert(buf@.subrange(start as int, start + i + 1) =~= value@.subrange(0, i + 1));
                assert(buf@.subrange(0, start as int) =~= Seq::new(start as nat, |k: int| 0u8));
                i = i + 1;
            }
            assert(buf@ =~= right_aligned(value@)) by {
                assert(buf@ =~= buf@.subrange(0, start as int) + buf@.subrange(start as int, 8));
                assert(value@.subrange(0, value@.len() as int) =~= value@);
            }
            let packed = u64_from_be(buf.as_slice());
            if packed >= 0x8000_0000_0000_0000 {
                crate::codes::TOO_BIG
            } else {
                packed as i64
            }
        },
        Err(code) => code,
    }
}

/// A stand-in keylet answer as a [`Keylet`].
///
/// # Errors
///
/// The code's error for an `Err(code)` answer.
pub fn keylet_result(r: core::result::Result<[u8; 34], i64>) -> (k: Result<Keylet>)
    ensures
        k == (match r {
            Ok(bytes) => Ok::<Keylet, HookError>(Keylet(bytes)),
            Err(code) => Err::<Keylet, HookError>(HookError::of(code)),
        }),
{
    match r {
        Ok(bytes) => Ok(Keylet(bytes)),
        Err(code) => Err(HookError::from_code(code)),
    }
}

} // verus!
