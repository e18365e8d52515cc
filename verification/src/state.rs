//! Typed hook state: keys that encode to their own real length
//! ([`StateKeyEncode`], [`EncodedStateKey`]) and values that cross the
//! boundary through [`ToBytes`]/[`FromBytes`].
//!
//! A key is handed to the host at exactly its natural length, 1 to 32
//! bytes; the host left-pads shorter keys itself. A missing entry reads as
//! `Ok(None)`; every other failure, including a present entry too short to
//! decode, is an `Err`. Each read takes the host's `state`/`state_foreign`
//! answer and the 32-byte buffer it wrote; each write takes the host's
//! `state_set`/`state_foreign_set` answer for the bytes [`state_value`]
//! produced.

use vstd::prelude::*;
use crate::convert::{written_into, FromBytes, ToBytes};
use crate::error::{HookError, Result};
use crate::reply::{reply_usize, res_usize};
use crate::types::StateKey;

verus! {

/// The largest value the typed layer stores.
pub const MAX_TYPED_STATE_LEN: usize = 32;

/// A state key encoded at its real length: up to 32 bytes of which the
/// first `len` are the key.
#[derive(Clone, Copy, Debug)]
pub struct EncodedStateKey {
    buf: [u8; 32],
    len: usize,
}

/// The key bytes of a buffer and a length: the first `len` bytes, or
/// nothing when `len` exceeds the buffer.
pub open spec fn key_prefix(buf: Seq<u8>, len: usize) -> Seq<u8> {
    if len <= buf.len() {
        buf.subrange(0, len as int)
    } else {
        Seq::<u8>::empty()
    }
}

impl EncodedStateKey {
    /// The key bytes handed to the host.
    pub closed spec fn bytes(&self) -> Seq<u8> {
        key_prefix(self.buf@, self.len)
    }

    /// The key whose bytes are the first `len` bytes of `buf`.
    pub fn new(buf: [u8; 32], len: usize) -> (k: EncodedStateKey)
        ensures
            k.bytes() == key_prefix(buf@, len),
    {
        EncodedStateKey { buf, len }
    }

    /// The key whose bytes are exactly `key` (1 to 32 bytes).
    pub fn from_short<const N: usize>(key: &[u8; N]) -> (k: EncodedStateKey)
        requires
            1 <= N <= 32,
        ensures
            k.bytes() == key@,
    {
        let mut buf = [0u8; 32];
        let mut i: usize = 0;
        while i < N
            invariant
                N <= 32,
                key@.len() == N,
                buf@.len() == 32,
                i <= N,
                buf@.subrange(0, i as int) == key@.subrange(0, i as int),
            decreases N - i,
        {
            buf[i] = key[i];
            assert(buf@.subrange(0, i + 1) =~= key@.subrange(0, i + 1));
            i = i + 1;
        }
        assert(key@.subrange(0, N as int) =~= key@);
        EncodedStateKey { buf, len: N }
    }

    /// The key bytes handed to the host.
    pub fn as_ref(&self) -> (out: &[u8])
        ensures
            out@ == self.bytes(),
    {
        if self.len <= 32 {
            vstd::slice::slice_subrange(self.buf.as_slice(), 0, self.len)
        } else {
            let e: &[u8] = &[];
            assert(e@ =~= Seq::<u8>::empty());
            e
        }
    }
}

/// A value usable as a hook-state key.
pub trait StateKeyEncode {
    /// The key bytes this value encodes to.
    open spec fn key_bytes(&self) -> Seq<u8> {
        Seq::empty()
    }

    /// Encodes the key at its real length.
    fn encode(&self) -> (k: EncodedStateKey)
        ensures
            k.bytes() == self.key_bytes(),
    ;
}

impl StateKeyEncode for EncodedStateKey {
    open spec fn key_bytes(&self) -> Seq<u8> {
        self.bytes()
    }

    fn encode(&self) -> (k: EncodedStateKey) {
        *self
    }
}

impl StateKeyEncode for StateKey {
    open spec fn key_bytes(&self) -> Seq<u8> {
        self.0@
    }

    fn encode(&self) -> (k: EncodedStateKey) {
        let k = EncodedStateKey::new(self.0, 32);
        assert(self.0@.subrange(0, 32) =~= self.0@);
        k
    }
}

impl<const N: usize> StateKeyEncode for [u8; N] {
    open spec fn key_bytes(&self) -> Seq<u8> {
        if N <= 32 {
            self@
        } else {
            Seq::<u8>::empty()
        }
    }

    fn encode(&self) -> (k: EncodedStateKey) {
        let mut buf = [0u8; 32];
        if N <= 32 {
            let mut i: usize = 0;
            while i < N
                invariant
                    N <= 32,
                    self@.len() == N,
                    buf@.len() == 32,
                    i <= N,
                    buf@.subrange(0, i as int) == self@.subrange(0, i as int),
                decreases N - i,
            {
                buf[i] = self[i];
                assert(buf@.subrange(0, i + 1) =~= self@.subrange(0, i + 1));
                i = i + 1;
            }
            assert(self@.subrange(0, N as int) =~= self@);
        }
        EncodedStateKey::new(buf, N)
    }
}

/// The key of a variant of an enum key space: its one-byte discriminant
/// followed by its payload's encoding, with no padding.
pub open spec fn variant_key(disc: u8, payload: Seq<u8>) -> Seq<u8> {
    seq![disc] + payload
}

/// The key of a variant without a payload: the discriminant alone.
pub fn unit_variant_key(disc: u8) -> (k: EncodedStateKey)
    ensures
        k.bytes() == variant_key(disc, Seq::<u8>::empty()),
{
    let mut buf = [0u8; 32];
    buf[0] = disc;
    assert(buf@.subrange(0, 1) =~= variant_key(disc, Seq::<u8>::empty()));
    EncodedStateKey::new(buf, 1)
}

/// The key of a variant carrying `payload`: the discriminant, then the
/// payload's encoding. The payload leaves room for the discriminant.
pub fn payload_variant_key<T: ToBytes>(disc: u8, payload: &T) -> (k: EncodedStateKey)
    requires
        T::MAX_LEN < 32,
    ensures
        k.bytes() == variant_key(disc, payload.encoding()),
{
    let mut rest = [0u8; 31];
    let n = payload.write(&mut rest);
    let ghost enc = payload.encoding();
    assert(rest@.subrange(0, n as int) =~= enc);
    let mut buf = [0u8; 32];
    buf[0] = disc;
    let mut i: usize = 0;
    while i < n
        invariant
            n == enc.len(),
            n < 32,
            rest@.len() == 31,
            rest@.subrange(0, n as int) == enc,
            buf@.len() == 32,
            buf@[0] == disc,
            i <= n,
            forall|j: int| 0 <= j < i ==> buf@[j + 1] == enc[j],
        decreases n - i,
    {
        buf[i + 1] = rest[i];
        assert(rest@[i as int] == rest@.subrange(0, n as int)[i as int]);
        i = i + 1;
    }
    assert(buf@.subrange(0, n + 1) =~= variant_key(disc, enc));
    EncodedStateKey::new(buf, n + 1)
}

/// Keys of variants with different discriminants never collide, and two
/// variant keys are equal only for the same discriminant and the same
/// payload encoding.
pub proof fn lemma_variant_keys_distinct(d1: u8, p1: Seq<u8>, d2: u8, p2: Seq<u8>)
    ensures
        d1 != d2 ==> variant_key(d1, p1) != variant_key(d2, p2),
        variant_key(d1, p1) == variant_key(d2, p2) ==> d1 == d2 && p1 == p2,
{
    if variant_key(d1, p1) == variant_key(d2, p2) {
        assert(variant_key(d1, p1)[0] == d1);
        assert(variant_key(d2, p2)[0] == d2);
        assert(p1 =~= variant_key(d1, p1).subrange(1, variant_key(d1, p1).len() as int));
        assert(p2 =~= variant_key(d2, p2).subrange(1, variant_key(d2, p2).len() as int));
    }
    if d1 != d2 {
        assert(variant_key(d1, p1)[0] != variant_key(d2, p2)[0]);
    }
}

/// A key type that fixes the type of the value stored under it.
pub trait TypedStateKey: StateKeyEncode {
    /// The value's type.
    type Value: ToBytes + FromBytes;
}

/// What a typed read gives when the host answered `code` and wrote `raw`:
/// `None` for a missing entry, the host's error for any other negative
/// answer, [`HookError::TooSmall`] when the reported length exceeds the
/// buffer or is too short for a `T`, and the decoded value otherwise.
pub open spec fn state_read_reply<T: FromBytes>(code: i64, raw: Seq<u8>) -> Result<Option<T>> {
    if code == crate::codes::DOESNT_EXIST {
        Ok(None)
    } else if code < 0 {
        Err(HookError::of(code))
    } else if code as usize > raw.len() {
        Err(HookError::TooSmall)
    } else if (code as usize) < T::read_len() {
        Err(HookError::TooSmall)
    } else {
        Ok(Some(T::decoding(raw.subrange(0, T::read_len() as int))))
    }
}

/// Decodes the host's answer to a typed read.
///
/// # Errors
///
/// As [`state_read_reply`] describes.
pub fn decode_read<T: FromBytes>(code: i64, raw: &[u8]) -> (r: Result<Option<T>>)
    ensures
        r == state_read_reply::<T>(code, raw@),
{
    if code == crate::codes::DOESNT_EXIST {
        return Ok(None);
    }
    let n = res_usize(code)?;
    if n > raw.len() {
        return Err(HookError::TooSmall);
    }
    let src = vstd::slice::slice_subrange(raw, 0, n);
    match T::read(src) {
        Ok(v) => {
            assert(src@.subrange(0, T::read_len() as int) =~= raw@.subrange(0, T::read_len() as int));
            Ok(Some(v))
        },
        Err(e) => Err(e),
    }
}

/// A 32-byte buffer holding `value`'s encoding at its front (all zeros when
/// the encoding does not fit).
pub fn encode_write<T: ToBytes>(value: &T) -> (raw: [u8; 32])
    ensures
        raw@ == written_into(Seq::new(32, |i: int| 0u8), value.encoding()),
        value.encoding().len() == T::MAX_LEN,
{
    let mut raw = [0u8; 32];
    assert(raw@ =~= Seq::new(32, |i: int| 0u8));
    let _ = value.write(&mut raw);
    raw
}

/// The bytes a typed write hands to the host: the value's encoding, or
/// [`HookError::TooBig`] when it exceeds [`MAX_TYPED_STATE_LEN`].
pub open spec fn state_value_bytes<T: ToBytes>(value: &T) -> Result<Seq<u8>> {
    if T::MAX_LEN <= MAX_TYPED_STATE_LEN {
        Ok(value.encoding())
    } else {
        Err(HookError::TooBig)
    }
}

/// The bytes to hand to the host's `state_set` for `value`.
///
/// # Errors
///
/// [`HookError::TooBig`] when the encoding exceeds [`MAX_TYPED_STATE_LEN`].
pub fn state_value<T: ToBytes>(value: &T) -> (r: Result<Vec<u8>>)
    ensures
        match state_value_bytes(value) {
            Ok(b) => r is Ok && r->Ok_0@ == b,
            Err(e) => r == Err::<Vec<u8>, HookError>(e),
        },
{
    let raw = encode_write(value);
    if T::MAX_LEN > 32 {
        return Err(HookError::TooBig);
    }
    let out = vstd::slice::slice_to_vec(vstd::slice::slice_subrange(raw.as_slice(), 0, T::MAX_LEN));
    assert(out@ =~= value.encoding());
    Ok(out)
}

/// What a typed write gives: [`HookError::TooBig`] for a value that does
/// not fit (no call is made), and the host's `state_set` answer otherwise.
pub open spec fn state_write_reply<T: ToBytes>(code: i64) -> Result<usize> {
    if T::MAX_LEN > MAX_TYPED_STATE_LEN {
        Err(HookError::TooBig)
    } else {
        reply_usize(code)
    }
}

fn write_reply<T: ToBytes>(code: i64) -> (r: Result<usize>)
    ensures
        r == state_write_reply::<T>(code),
{
    if T::MAX_LEN > 32 {
        return Err(HookError::TooBig);
    }
    res_usize(code)
}

/// What a read-modify-write computes: the read's error, or a value `f`
/// gives for what was read.
pub open spec fn update_reply<T: FromBytes, F: FnOnce(Option<T>) -> T>(
    code: i64,
    raw: Seq<u8>,
    f: F,
    r: Result<T>,
) -> bool {
    match state_read_reply::<T>(code, raw) {
        Err(e) => r == Err::<T, HookError>(e),
        Ok(cur) => r is Ok && f.ensures((cur,), r->Ok_0),
    }
}

/// Reads a typed value from the host's `state` answer.
///
/// # Errors
///
/// As [`state_read_reply`] describes.
pub fn state_get<T: FromBytes>(code: i64, raw: &[u8]) -> (r: Result<Option<T>>)
    requires
        raw@.len() == MAX_TYPED_STATE_LEN,
    ensures
        r == state_read_reply::<T>(code, raw@),
{
    decode_read(code, raw)
}

/// Reads the value `key`'s type fixes, from the host's `state` answer.
///
/// # Errors
///
/// As [`state_read_reply`] describes.
pub fn state_get_typed<K: TypedStateKey>(key: &K, code: i64, raw: &[u8]) -> (r: Result<Option<K::Value>>)
    requires
        raw@.len() == MAX_TYPED_STATE_LEN,
    ensures
        r == state_read_reply::<K::Value>(code, raw@),
{
    decode_read(code, raw)
}

/// The outcome of writing `value`, from the host's `state_set` answer for
/// [`state_value`]'s bytes.
///
/// # Errors
///
/// [`HookError::TooBig`] for a value that does not fit, or the host's
/// error.
pub fn state_set_loose<T: ToBytes>(value: &T, code: i64) -> (r: Result<usize>)
    ensures
        r == state_write_reply::<T>(code),
{
    write_reply::<T>(code)
}

/// As [`state_set_loose`], for the value type `key` fixes.
///
/// # Errors
///
/// As [`state_set_loose`].
pub fn state_set_typed<K: TypedStateKey>(key: &K, value: &K::Value, code: i64) -> (r: Result<usize>)
    ensures
        r == state_write_reply::<K::Value>(code),
{
    write_reply::<K::Value>(code)
}

/// The value a read-modify-write stores: `f` applied to what the host's
/// `state` answer decodes to.
///
/// # Errors
///
/// The read's error; `f` is then not called.
pub fn state_update_loose<T: FromBytes + ToBytes, F: FnOnce(Option<T>) -> T>(
    code: i64,
    raw: &[u8],
    f: F,
) -> (r: Result<T>)
    requires
        raw@.len() == MAX_TYPED_STATE_LEN,
        forall|x: Option<T>| f.requires((x,)),
    ensures
        update_reply::<T, F>(code, raw@, f, r),
{
    let current = decode_read::<T>(code, raw)?;
    Ok(f(current))
}

/// As [`state_update_loose`], for the value type `key` fixes.
///
/// # Errors
///
/// As [`state_update_loose`].
pub fn state_update_typed<K: TypedStateKey, F: FnOnce(Option<K::Value>) -> K::Value>(
    key: &K,
    code: i64,
    raw: &[u8],
    f: F,
) -> (r: Result<K::Value>)
    requires
        raw@.len() == MAX_TYPED_STATE_LEN,
        forall|x: Option<K::Value>| f.requires((x,)),
    ensures
        update_reply::<K::Value, F>(code, raw@, f, r),
{
    state_update_loose(code, raw, f)
}

/// The outcome of deleting an entry (writing it empty), from the host's
/// `state_set` answer.
///
/// # Errors
///
/// The host's error.
pub fn state_delete(code: i64) -> (r: Result<()>)
    ensures
        code < 0 ==> r == Err::<(), HookError>(HookError::of(code)),
        code >= 0 ==> r is Ok,
{
    match res_usize(code) {
        Ok(_) => Ok(()),
        Err(e) => Err(e),
    }
}

/// Reads a typed value of another namespace or account, from the host's
/// `state_foreign` answer.
///
/// # Errors
///
/// As [`state_read_reply`] describes.
pub fn state_foreign_get<T: FromBytes>(code: i64, raw: &[u8]) -> (r: Result<Option<T>>)
    requires
        raw@.len() == MAX_TYPED_STATE_LEN,
    ensures
        r == state_read_reply::<T>(code, raw@),
{
    decode_read(code, raw)
}

/// The outcome of writing `value` into another namespace or account, from
/// the host's `state_foreign_set` answer.
///
/// # Errors
///
/// As [`state_set_loose`].
pub fn state_foreign_set_loose<T: ToBytes>(value: &T, code: i64) -> (r: Result<usize>)
    ensures
        r == state_write_reply::<T>(code),
{
    write_reply::<T>(code)
}

/// As [`state_update_loose`], from the host's `state_foreign` answer.
///
/// # Errors
///
/// As [`state_update_loose`].
pub fn state_foreign_update_loose<T: FromBytes + ToBytes, F: FnOnce(Option<T>) -> T>(
    code: i64,
    raw: &[u8],
    f: F,
) -> (r: Result<T>)
    requires
        raw@.len() == MAX_TYPED_STATE_LEN,
        forall|x: Option<T>| f.requires((x,)),
    ensures
        update_reply::<T, F>(code, raw@, f, r),
{
    state_update_loose(code, raw, f)
}

/// As [`state_foreign_get`], for the value type `key` fixes.
///
/// # Errors
///
/// As [`state_read_reply`] describes.
pub fn state_foreign_get_typed<K: TypedStateKey>(key: &K, code: i64, raw: &[u8]) -> (r: Result<Option<K::Value>>)
    requires
        raw@.len() == MAX_TYPED_STATE_LEN,
    ensures
        r == state_read_reply::<K::Value>(code, raw@),
{
    decode_read(code, raw)
}

/// As [`state_foreign_set_loose`], for the value type `key` fixes.
///
/// # Errors
///
/// As [`state_set_loose`].
pub fn state_foreign_set_typed<K: TypedStateKey>(key: &K, value: &K::Value, code: i64) -> (r: Result<usize>)
    ensures
        r == state_write_reply::<K::Value>(code),
{
    write_reply::<K::Value>(code)
}

/// As [`state_foreign_update_loose`], for the value type `key` fixes.
///
/// # Errors
///
/// As [`state_update_loose`].
pub fn state_foreign_update_typed<K: TypedStateKey, F: FnOnce(Option<K::Value>) -> K::Value>(
    key: &K,
    code: i64,
    raw: &[u8],
    f: F,
) -> (r: Result<K::Value>)
    requires
        raw@.len() == MAX_TYPED_STATE_LEN,
        forall|x: Option<K::Value>| f.requires((x,)),
    ensures
        update_reply::<K::Value, F>(code, raw@, f, r),
{
    state_update_loose(code, raw, f)
}

/// Writing a value that fits and reading back what the host then holds
/// gives the value again: the bytes [`state_value`] hands over decode, under
/// an answer reporting their length, to the value written. This holds of
/// every value type whose decoding undoes its encoding, as the round-trip
/// lemmas in [`crate::convert`] show of each one the library provides.
pub proof fn lemma_state_value_round_trip<T: ToBytes + FromBytes>(v: T, raw: Seq<u8>)
    requires
        T::decoding(v.encoding()) == v,
        v.encoding().len() == T::read_len(),
        T::MAX_LEN <= MAX_TYPED_STATE_LEN,
        raw.len() == MAX_TYPED_STATE_LEN,
        v.encoding().len() <= raw.len(),
        raw.subrange(0, v.encoding().len() as int) == v.encoding(),
    ensures
        state_value_bytes(&v) == Ok::<Seq<u8>, HookError>(v.encoding()),
        state_read_reply::<T>(v.encoding().len() as i64, raw) == Ok::<Option<T>, HookError>(Some(v)),
{
    let n = v.encoding().len();
    let code = n as i64;
    assert(code >= 0 && code as usize == n);
    assert(code != crate::codes::DOESNT_EXIST);
    assert(raw.subrange(0, T::read_len() as int) == v.encoding());
}

/// [`lemma_state_value_round_trip`] for a `u32` counter, the common case.
pub proof fn lemma_u32_value_round_trip(v: u32, raw: Seq<u8>)
    requires
        raw.len() == MAX_TYPED_STATE_LEN,
        raw.subrange(0, 4) == v.encoding(),
    ensures
        state_value_bytes(&v) == Ok::<Seq<u8>, HookError>(v.encoding()),
        state_read_reply::<u32>(4, raw) == Ok::<Option<u32>, HookError>(Some(v)),
{
    crate::convert::lemma_u32_round_trip(v);
    crate::convert::lemma_int_max_lens();
    lemma_state_value_round_trip(v, raw);
}

} // verus!
