//! How small fixed-size values cross into and out of protocol byte buffers
//! (hook state entries, state-key payloads, parameters): [`ToBytes`],
//! [`FromBytes`] and [`FixedRead`].
//!
//! Integers use the little-endian, fixed-layout convention of hook state
//! entries; byte arrays are copied verbatim; an [`XFL`] is its raw `i64`
//! bit pattern. Writing into a buffer that is too short writes nothing;
//! reading from one that is too short fails with [`HookError::TooSmall`].

use vstd::prelude::*;
use crate::bytes::{
    lemma_u16_le_round_trip, lemma_u32_le_round_trip, lemma_u64_le_round_trip, le_u16, le_u32, le_u64, u16_of_le, u16_to_le, u16_from_le, u32_of_le, u32_to_le, u32_from_le,
    u64_of_le, u64_to_le, u64_from_le,
};
use crate::error::{HookError, Result};
use crate::types::{AccountId, CurrencyCode, Keylet, XFL};

verus! {

/// `buf` after `bytes` were written at its front: `bytes` followed by the
/// rest of `buf` when they fit, `buf` unchanged when they do not.
pub open spec fn written_into(buf: Seq<u8>, bytes: Seq<u8>) -> Seq<u8> {
    if bytes.len() <= buf.len() {
        bytes + buf.subrange(bytes.len() as int, buf.len() as int)
    } else {
        buf
    }
}

/// Writes `bytes` at the front of `buf` when they fit, returning how many
/// bytes were written (`0` when they do not fit).
pub fn write_front(buf: &mut [u8], bytes: &[u8]) -> (n: usize)
    ensures
        n == (if bytes@.len() <= old(buf)@.len() { bytes@.len() } else { 0 }),
        final(buf)@ == written_into(old(buf)@, bytes@),
{
    let len = bytes.len();
    if len > buf.len() {
        return 0;
    }
    let mut i: usize = 0;
    while i < len
        invariant
            len == bytes@.len(),
            len <= buf@.len(),
            buf@.len() == old(buf)@.len(),
            i <= len,
            buf@ == bytes@.subrange(0, i as int) + old(buf)@.subrange(i as int, old(buf)@.len() as int),
        decreases len - i,
    {
        buf[i] = bytes[i];
        assert(bytes@.subrange(0, i + 1) =~= bytes@.subrange(0, i as int).push(bytes@[i as int]));
        assert(buf@ =~= bytes@.subrange(0, i + 1) + old(buf)@.subrange(i + 1, old(buf)@.len() as int));
        i = i + 1;
    }
    assert(bytes@.subrange(0, len as int) =~= bytes@);
    len
}

/// A value with a fixed-size byte encoding.
pub trait ToBytes {
    /// The exact number of bytes a successful [`ToBytes::write`] produces.
    const MAX_LEN: usize;

    /// The encoding of `self`; it is [`ToBytes::MAX_LEN`] bytes long.
    open spec fn encoding(&self) -> Seq<u8> {
        Seq::empty()
    }

    /// Writes the encoding at the front of `buf` and returns its length, or
    /// writes nothing and returns `0` when `buf` is too short.
    fn write(&self, buf: &mut [u8]) -> (n: usize)
        ensures
            self.encoding().len() == Self::MAX_LEN,
            n == (if Self::MAX_LEN <= old(buf)@.len() { Self::MAX_LEN } else { 0 }),
            final(buf)@ == written_into(old(buf)@, self.encoding()),
    ;
}

/// A value decoded from the front of a byte buffer.
pub trait FromBytes: Sized {
    /// The number of bytes a value is decoded from.
    spec fn read_len() -> nat;

    /// The value that `bytes` (exactly [`FromBytes::read_len`] of them)
    /// decode to.
    spec fn decoding(bytes: Seq<u8>) -> Self;

    /// Decodes a value from the front of `buf`.
    ///
    /// # Errors
    ///
    /// [`HookError::TooSmall`] if `buf` is shorter than the encoding.
    fn read(buf: &[u8]) -> (r: Result<Self>)
        ensures
            buf@.len() < Self::read_len() ==> r == Err::<Self, HookError>(HookError::TooSmall),
            buf@.len() >= Self::read_len() ==> r == Ok::<Self, HookError>(
                Self::decoding(buf@.subrange(0, Self::read_len() as int)),
            ),
    ;
}

/// What a read of exactly `len` bytes gives: the reader's own error, the
/// decoded value when it reported exactly `len` bytes, and
/// [`HookError::TooSmall`] for any other count.
pub open spec fn exact_read<T>(written: Result<usize>, len: nat, value: T) -> Result<T> {
    match written {
        Err(e) => Err(e),
        Ok(n) => if n == len {
            Ok(value)
        } else {
            Err(HookError::TooSmall)
        },
    }
}

/// A value read by handing a reader (a Hook API call) a buffer of exactly
/// [`FixedRead::READ_LEN`] bytes and requiring it to fill all of them.
pub trait FixedRead: Sized {
    /// The size of the buffer handed to the reader.
    const READ_LEN: usize;

    /// The value a completely filled buffer decodes to.
    spec fn fixed_decoding(bytes: Seq<u8>) -> Self;

    /// Decodes the reader's answer: `written` is what it reported and `buf`
    /// the [`FixedRead::READ_LEN`]-byte buffer it wrote into.
    ///
    /// # Errors
    ///
    /// The reader's own error, or [`HookError::TooSmall`] if it reported
    /// any other count than [`FixedRead::READ_LEN`].
    fn read_exact(written: Result<usize>, buf: &[u8]) -> (r: Result<Self>)
        requires
            buf@.len() == Self::READ_LEN,
        ensures
            r == exact_read(written, Self::READ_LEN as nat, Self::fixed_decoding(buf@)),
    ;
}

/// The Hook API's upper bound on a parameter name's length.
pub const PARAM_NAME_MAX_LEN: usize = 32;

/// A typed parameter name: a value whose encoding is a parameter's name and
/// which fixes the type the parameter's value decodes to.
pub trait TypedParamName: ToBytes {
    /// The parameter value's type.
    type Value: FixedRead;

    /// The name's bytes: the encoding, when it fits the Hook API's
    /// 32-byte name limit, and nothing otherwise.
    fn name_bytes(&self) -> (name: Vec<u8>)
        ensures
            name@ == (if self.encoding().len() <= PARAM_NAME_MAX_LEN {
                self.encoding()
            } else {
                Seq::<u8>::empty()
            }),
    {
        let mut buf = [0u8; 32];
        let n = self.write(&mut buf);
        let out = vstd::slice::slice_to_vec(vstd::slice::slice_subrange(buf.as_slice(), 0, n));
        proof {
            if self.encoding().len() <= 32 {
                assert(out@ =~= self.encoding());
            } else {
                assert(out@ =~= Seq::<u8>::empty());
            }
        }
        out
    }
}

impl ToBytes for u8 {
    const MAX_LEN: usize = 1;

    open spec fn encoding(&self) -> Seq<u8> {
        seq![*self]
    }

    fn write(&self, buf: &mut [u8]) -> (n: usize) {
        let b = [*self];
        assert(b@ =~= seq![*self]);
        write_front(buf, b.as_slice())
    }
}

impl FromBytes for u8 {
    open spec fn read_len() -> nat {
        1
    }

    open spec fn decoding(bytes: Seq<u8>) -> u8 {
        bytes[0]
    }

    fn read(buf: &[u8]) -> (r: Result<u8>) {
        if buf.len() < 1 {
            return Err(HookError::TooSmall);
        }
        Ok(buf[0])
    }
}

impl ToBytes for u16 {
    const MAX_LEN: usize = 2;

    open spec fn encoding(&self) -> Seq<u8> {
        le_u16(*self)
    }

    fn write(&self, buf: &mut [u8]) -> (n: usize) {
        let b = u16_to_le(*self);
        write_front(buf, b.as_slice())
    }
}

impl FromBytes for u16 {
    open spec fn read_len() -> nat {
        2
    }

    open spec fn decoding(bytes: Seq<u8>) -> u16 {
        u16_of_le(bytes)
    }

    fn read(buf: &[u8]) -> (r: Result<u16>) {
        if buf.len() < 2 {
            return Err(HookError::TooSmall);
        }
        Ok(u16_from_le(buf))
    }
}

impl ToBytes for u32 {
    const MAX_LEN: usize = 4;

    open spec fn encoding(&self) -> Seq<u8> {
        le_u32(*self)
    }

    fn write(&self, buf: &mut [u8]) -> (n: usize) {
        let b = u32_to_le(*self);
        write_front(buf, b.as_slice())
    }
}

impl FromBytes for u32 {
    open spec fn read_len() -> nat {
        4
    }

    open spec fn decoding(bytes: Seq<u8>) -> u32 {
        u32_of_le(bytes)
    }

    fn read(buf: &[u8]) -> (r: Result<u32>) {
        if buf.len() < 4 {
            return Err(HookError::TooSmall);
        }
        Ok(u32_from_le(buf))
    }
}

impl ToBytes for u64 {
    const MAX_LEN: usize = 8;

    open spec fn encoding(&self) -> Seq<u8> {
        le_u64(*self)
    }

    fn write(&self, buf: &mut [u8]) -> (n: usize) {
        let b = u64_to_le(*self);
        write_front(buf, b.as_slice())
    }
}

impl FromBytes for u64 {
    open spec fn read_len() -> nat {
        8
    }

    open spec fn decoding(bytes: Seq<u8>) -> u64 {
        u64_of_le(bytes)
    }

    fn read(buf: &[u8]) -> (r: Result<u64>) {
        if buf.len() < 8 {
            return Err(HookError::TooSmall);
        }
        Ok(u64_from_le(buf))
    }
}

impl ToBytes for i64 {
    const MAX_LEN: usize = 8;

    open spec fn encoding(&self) -> Seq<u8> {
        le_u64(*self as u64)
    }

    fn write(&self, buf: &mut [u8]) -> (n: usize) {
        let b = u64_to_le(*self as u64);
        write_front(buf, b.as_slice())
    }
}

impl FromBytes for i64 {
    open spec fn read_len() -> nat {
        8
    }

    open spec fn decoding(bytes: Seq<u8>) -> i64 {
        u64_of_le(bytes) as i64
    }

    fn read(buf: &[u8]) -> (r: Result<i64>) {
        if buf.len() < 8 {
            return Err(HookError::TooSmall);
        }
        Ok(u64_from_le(buf) as i64)
    }
}

impl ToBytes for XFL {
    const MAX_LEN: usize = 8;

    open spec fn encoding(&self) -> Seq<u8> {
        le_u64(self.0 as u64)
    }

    fn write(&self, buf: &mut [u8]) -> (n: usize) {
        self.raw_bits().write(buf)
    }
}

impl FromBytes for XFL {
    open spec fn read_len() -> nat {
        8
    }

    open spec fn decoding(bytes: Seq<u8>) -> XFL {
        XFL(u64_of_le(bytes) as i64)
    }

    fn read(buf: &[u8]) -> (r: Result<XFL>) {
        match i64::read(buf) {
            Ok(bits) => Ok(XFL::from_raw_bits(bits)),
            Err(e) => Err(e),
        }
    }
}

impl FixedRead for XFL {
    const READ_LEN: usize = 8;

    open spec fn fixed_decoding(bytes: Seq<u8>) -> XFL {
        XFL(u64_of_le(bytes) as i64)
    }

    fn read_exact(written: Result<usize>, buf: &[u8]) -> (r: Result<XFL>) {
        match written {
            Err(e) => Err(e),
            Ok(n) => {
                if n != 8 {
                    Err(HookError::TooSmall)
                } else {
                    Ok(XFL::from_raw_bits(u64_from_le(buf) as i64))
                }
            },
        }
    }
}

/// The array whose view is `bytes`.
pub open spec fn array_of<const N: usize>(bytes: Seq<u8>) -> [u8; N] {
    choose|a: [u8; N]| a@ == bytes
}

/// Copies `src` into a fresh `N`-byte array.
pub fn array_from<const N: usize>(src: &[u8]) -> (out: [u8; N])
    requires
        src@.len() == N,
    ensures
        out@ == src@,
{
    let mut out: [u8; N] = vstd::array::array_fill_for_copy_types(0u8);
    let mut i: usize = 0;
    while i < N
        invariant
            src@.len() == N,
            out@.len() == N,
            i <= N,
            out@.subrange(0, i as int) == src@.subrange(0, i as int),
        decreases N - i,
    {
        out[i] = src[i];
        assert(out@.subrange(0, i + 1) =~= src@.subrange(0, i + 1));
        i = i + 1;
    }
    assert(out@ =~= out@.subrange(0, N as int));
    assert(src@ =~= src@.subrange(0, N as int));
    out
}

/// Exactly `N` bytes from a reader's answer: its error, the buffer when it
/// reported exactly `N` bytes, [`HookError::TooSmall`] otherwise.
pub fn exact_array_read<const N: usize>(written: Result<usize>, buf: &[u8]) -> (r: Result<[u8; N]>)
    requires
        buf@.len() == N,
    ensures
        r == exact_read(written, N as nat, array_of::<N>(buf@)),
{
    let n = match written {
        Ok(n) => n,
        Err(e) => {
            return Err(e);
        },
    };
    if n != N {
        return Err(HookError::TooSmall);
    }
    let out: [u8; N] = array_from(buf);
    proof {
        lemma_array_view_injective(out, array_of::<N>(out@));
    }
    Ok(out)
}

impl<const N: usize> ToBytes for [u8; N] {
    const MAX_LEN: usize = N;

    open spec fn encoding(&self) -> Seq<u8> {
        self@
    }

    fn write(&self, buf: &mut [u8]) -> (n: usize) {
        write_front(buf, self.as_slice())
    }
}

impl<const N: usize> FromBytes for [u8; N] {
    open spec fn read_len() -> nat {
        N as nat
    }

    open spec fn decoding(bytes: Seq<u8>) -> [u8; N] {
        choose|a: [u8; N]| a@ == bytes
    }

    fn read(buf: &[u8]) -> (r: Result<[u8; N]>) {
        if buf.len() < N {
            return Err(HookError::TooSmall);
        }
        let out: [u8; N] = array_from(vstd::slice::slice_subrange(buf, 0, N));
        proof {
            lemma_array_view_injective(out, Self::decoding(buf@.subrange(0, N as int)));
        }
        Ok(out)
    }
}

impl<const N: usize> FixedRead for [u8; N] {
    const READ_LEN: usize = N;

    open spec fn fixed_decoding(bytes: Seq<u8>) -> [u8; N] {
        choose|a: [u8; N]| a@ == bytes
    }

    fn read_exact(written: Result<usize>, buf: &[u8]) -> (r: Result<[u8; N]>) {
        let n = match written {
            Ok(n) => n,
            Err(e) => {
                return Err(e);
            },
        };
        if n != N {
            return Err(HookError::TooSmall);
        }
        let out: [u8; N] = array_from(buf);
        proof {
            lemma_array_view_injective(out, Self::fixed_decoding(buf@));
        }
        Ok(out)
    }
}

impl ToBytes for AccountId {
    const MAX_LEN: usize = 20;

    open spec fn encoding(&self) -> Seq<u8> {
        self.0@
    }

    fn write(&self, buf: &mut [u8]) -> (n: usize) {
        write_front(buf, self.0.as_slice())
    }
}

impl FromBytes for AccountId {
    open spec fn read_len() -> nat {
        20
    }

    open spec fn decoding(bytes: Seq<u8>) -> AccountId {
        AccountId(array_of(bytes))
    }

    fn read(buf: &[u8]) -> (r: Result<AccountId>) {
        match <[u8; 20] as FromBytes>::read(buf) {
            Ok(b) => Ok(AccountId(b)),
            Err(e) => Err(e),
        }
    }
}

impl FixedRead for AccountId {
    const READ_LEN: usize = 20;

    open spec fn fixed_decoding(bytes: Seq<u8>) -> AccountId {
        AccountId(array_of(bytes))
    }

    fn read_exact(written: Result<usize>, buf: &[u8]) -> (r: Result<AccountId>) {
        match <[u8; 20] as FixedRead>::read_exact(written, buf) {
            Ok(b) => Ok(AccountId(b)),
            Err(e) => Err(e),
        }
    }
}

impl ToBytes for CurrencyCode {
    const MAX_LEN: usize = 20;

    open spec fn encoding(&self) -> Seq<u8> {
        self.0@
    }

    fn write(&self, buf: &mut [u8]) -> (n: usize) {
        write_front(buf, self.0.as_slice())
    }
}

impl FromBytes for CurrencyCode {
    open spec fn read_len() -> nat {
        20
    }

    open spec fn decoding(bytes: Seq<u8>) -> CurrencyCode {
        CurrencyCode(array_of(bytes))
    }

    fn read(buf: &[u8]) -> (r: Result<CurrencyCode>) {
        match <[u8; 20] as FromBytes>::read(buf) {
            Ok(b) => Ok(CurrencyCode(b)),
            Err(e) => Err(e),
        }
    }
}

impl FixedRead for CurrencyCode {
    const READ_LEN: usize = 20;

    open spec fn fixed_decoding(bytes: Seq<u8>) -> CurrencyCode {
        CurrencyCode(array_of(bytes))
    }

    fn read_exact(written: Result<usize>, buf: &[u8]) -> (r: Result<CurrencyCode>) {
        match <[u8; 20] as FixedRead>::read_exact(written, buf) {
            Ok(b) => Ok(CurrencyCode(b)),
            Err(e) => Err(e),
        }
    }
}

impl ToBytes for crate::types::Hash {
    const MAX_LEN: usize = 32;

    open spec fn encoding(&self) -> Seq<u8> {
        self.0@
    }

    fn write(&self, buf: &mut [u8]) -> (n: usize) {
        write_front(buf, self.0.as_slice())
    }
}

impl FromBytes for crate::types::Hash {
    open spec fn read_len() -> nat {
        32
    }

    open spec fn decoding(bytes: Seq<u8>) -> crate::types::Hash {
        crate::types::Hash(array_of(bytes))
    }

    fn read(buf: &[u8]) -> (r: Result<crate::types::Hash>) {
        match <[u8; 32] as FromBytes>::read(buf) {
            Ok(b) => Ok(crate::types::Hash(b)),
            Err(e) => Err(e),
        }
    }
}

impl FixedRead for crate::types::Hash {
    const READ_LEN: usize = 32;

    open spec fn fixed_decoding(bytes: Seq<u8>) -> crate::types::Hash {
        crate::types::Hash(array_of(bytes))
    }

    fn read_exact(written: Result<usize>, buf: &[u8]) -> (r: Result<crate::types::Hash>) {
        match <[u8; 32] as FixedRead>::read_exact(written, buf) {
            Ok(b) => Ok(crate::types::Hash(b)),
            Err(e) => Err(e),
        }
    }
}

impl ToBytes for Keylet {
    const MAX_LEN: usize = 34;

    open spec fn encoding(&self) -> Seq<u8> {
        self.0@
    }

    fn write(&self, buf: &mut [u8]) -> (n: usize) {
        write_front(buf, self.0.as_slice())
    }
}

impl FromBytes for Keylet {
    open spec fn read_len() -> nat {
        34
    }

    open spec fn decoding(bytes: Seq<u8>) -> Keylet {
        Keylet(array_of(bytes))
    }

    fn read(buf: &[u8]) -> (r: Result<Keylet>) {
        match <[u8; 34] as FromBytes>::read(buf) {
            Ok(b) => Ok(Keylet(b)),
            Err(e) => Err(e),
        }
    }
}

impl FixedRead for Keylet {
    const READ_LEN: usize = 34;

    open spec fn fixed_decoding(bytes: Seq<u8>) -> Keylet {
        Keylet(array_of(bytes))
    }

    fn read_exact(written: Result<usize>, buf: &[u8]) -> (r: Result<Keylet>) {
        match <[u8; 34] as FixedRead>::read_exact(written, buf) {
            Ok(b) => Ok(Keylet(b)),
            Err(e) => Err(e),
        }
    }
}

/// Two arrays with the same view are the same array; in particular the
/// array chosen for a view is the array that has it.
pub proof fn lemma_array_view_injective<const N: usize>(a: [u8; N], b: [u8; N])
    requires
        b == (choose|x: [u8; N]| x@ == a@),
    ensures
        b == a,
{
    assert(exists|x: [u8; N]| x@ == a@);
    let c = choose|x: [u8; N]| x@ == a@;
    assert(c@ == a@);
    assert(c =~= a) by {
        assert forall|i: int| 0 <= i < N implies c[i] == a[i] by {
            assert(c@[i] == a@[i]);
        }
    }
}

/// The encoded lengths of the built-in integer encodings.
pub proof fn lemma_int_max_lens()
    ensures
        <u8 as ToBytes>::MAX_LEN == 1,
        <u16 as ToBytes>::MAX_LEN == 2,
        <u32 as ToBytes>::MAX_LEN == 4,
        <u64 as ToBytes>::MAX_LEN == 8,
        <i64 as ToBytes>::MAX_LEN == 8,
{
}

/// The sizes of the library's other encodings and fixed reads.
pub proof fn lemma_fixed_lens<const N: usize>()
    ensures
        <XFL as ToBytes>::MAX_LEN == 8,
        <XFL as FixedRead>::READ_LEN == 8,
        <[u8; N] as ToBytes>::MAX_LEN == N,
        <[u8; N] as FixedRead>::READ_LEN == N,
        <AccountId as ToBytes>::MAX_LEN == 20,
        <AccountId as FixedRead>::READ_LEN == 20,
        <CurrencyCode as ToBytes>::MAX_LEN == 20,
        <CurrencyCode as FixedRead>::READ_LEN == 20,
        <crate::types::Hash as ToBytes>::MAX_LEN == 32,
        <crate::types::Hash as FixedRead>::READ_LEN == 32,
        <Keylet as ToBytes>::MAX_LEN == 34,
        <Keylet as FixedRead>::READ_LEN == 34,
{
}

/// Reading back what a `u8` wrote gives the same `u8`.
pub proof fn lemma_u8_round_trip(v: u8)
    ensures
        <u8 as FromBytes>::decoding(v.encoding()) == v,
        v.encoding().len() == <u8 as FromBytes>::read_len(),
{
}

/// Reading back what a `u16` wrote gives the same `u16`.
pub proof fn lemma_u16_round_trip(v: u16)
    ensures
        <u16 as FromBytes>::decoding(v.encoding()) == v,
        v.encoding().len() == <u16 as FromBytes>::read_len(),
{
    lemma_u16_le_round_trip(v, le_u16(v));
}

/// Reading back what a `u32` wrote gives the same `u32`.
pub proof fn lemma_u32_round_trip(v: u32)
    ensures
        <u32 as FromBytes>::decoding(v.encoding()) == v,
        v.encoding().len() == <u32 as FromBytes>::read_len(),
{
    lemma_u32_le_round_trip(v, le_u32(v));
}

/// Reading back what a `u64` wrote gives the same `u64`.
pub proof fn lemma_u64_round_trip(v: u64)
    ensures
        <u64 as FromBytes>::decoding(v.encoding()) == v,
        v.encoding().len() == <u64 as FromBytes>::read_len(),
{
    lemma_u64_le_round_trip(v, le_u64(v));
}

/// Reading back what an `i64` wrote gives the same `i64`.
pub proof fn lemma_i64_round_trip(v: i64)
    ensures
        <i64 as FromBytes>::decoding(v.encoding()) == v,
        v.encoding().len() == <i64 as FromBytes>::read_len(),
{
    lemma_u64_le_round_trip(v as u64, le_u64(v as u64));
    crate::bytes::lemma_i64_bits_round_trip(v);
}

/// Reading back what an [`XFL`] wrote gives the same bit pattern, whether
/// read with [`FromBytes`] or [`FixedRead`].
pub proof fn lemma_xfl_round_trip(v: XFL)
    ensures
        <XFL as FromBytes>::decoding(v.encoding()) == v,
        <XFL as FixedRead>::fixed_decoding(v.encoding()) == v,
        v.encoding().len() == <XFL as FromBytes>::read_len(),
{
    lemma_i64_round_trip(v.0);
}

/// Reading back what a byte array wrote gives the same array, whether read
/// with [`FromBytes`] or [`FixedRead`].
pub proof fn lemma_array_round_trip<const N: usize>(v: [u8; N])
    ensures
        <[u8; N] as FromBytes>::decoding(v.encoding()) == v,
        <[u8; N] as FixedRead>::fixed_decoding(v.encoding()) == v,
        v.encoding().len() == <[u8; N] as FromBytes>::read_len(),
{
    lemma_array_view_injective(v, <[u8; N] as FromBytes>::decoding(v.encoding()));
}

} // verus!
