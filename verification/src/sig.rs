//! The Hook Parameter Signature Interface: typed invocation parameters whose
//! names carry their own type.
//!
//! A signature parameter's name is `"_PS" 0x00 | index | type byte | name
//! length | name`, built by [`sig_param_name`]; its value is decoded by the
//! [`SigParamType`] the type byte stands for. Values cross the protocol
//! boundary, so integers are big-endian. Reading takes the host's answer to
//! the `otxn_param`/`hook_param` call and the buffer of
//! [`SigParamType::READ_LEN`] bytes it wrote.

use vstd::prelude::*;
use core::marker::PhantomData;
use crate::buf_eq::buf_eq_20;
use crate::bytes::{
    be_u64, be_value2, be_value4, be_value8, lemma_u16_of_be_value, lemma_u32_of_be_value,
    lemma_u64_be_round_trip, lemma_u64_of_be_value, u16_of_be, u32_of_be, u64_of_be, u16_from_be,
    u32_from_be, u64_from_be,
};
use crate::convert::{array_from, array_of, exact_read, lemma_array_view_injective};
use crate::error::{HookError, Result};
use crate::interface_name::valid_name;
use crate::reply::{reply_usize, res_usize};
use crate::slot_obj::{amount_of, classify_amount, AmountBytes};
use crate::types::{IouAmount, NativeAmount};
use crate::types::{AccountId, CurrencyCode, IssuedAsset};

verus! {

/// Length of the fixed part of a signature parameter name.
pub const FIXED_LEN: usize = 7;

/// Whether `b` is one of the type bytes a [`SigParamType`] stands for.
pub open spec fn supported_type_byte(b: u8) -> bool {
    b == 0x01 || b == 0x02 || b == 0x03 || b == 0x04 || b == 0x05 || b == 0x06 || b == 0x07
        || b == 0x08 || b == 0x10 || b == 0x11 || b == 0x18 || b == 0x1A
}

/// Whether `b` is one of the twelve supported type bytes.
pub fn is_supported_type_byte(b: u8) -> (r: bool)
    ensures
        r == supported_type_byte(b),
{
    b == 0x01 || b == 0x02 || b == 0x03 || b == 0x04 || b == 0x05 || b == 0x06 || b == 0x07
        || b == 0x08 || b == 0x10 || b == 0x11 || b == 0x18 || b == 0x1A
}

/// The name of signature parameter `index` of type `type_byte` called
/// `name`.
pub open spec fn sig_name_bytes(index: u8, type_byte: u8, name: Seq<u8>) -> Seq<u8> {
    seq![0x5Fu8, 0x50u8, 0x53u8, 0x00u8, index, type_byte, name.len() as u8] + name
}

/// Builds signature parameter `index`'s name: `"_PS" 0x00`, the index, the
/// type byte, the name's length, then the name. `N` is `7 + name.len()`.
pub fn sig_param_name<const N: usize>(index: u8, type_byte: u8, name: &[u8]) -> (out: [u8; N])
    requires
        index <= 0x0F,
        supported_type_byte(type_byte),
        valid_name(name@),
        N == name@.len() + FIXED_LEN,
    ensures
        out@ == sig_name_bytes(index, type_byte, name@),
{
    let mut out: [u8; N] = vstd::array::array_fill_for_copy_types(0u8);
    out[0] = 0x5F;
    out[1] = 0x50;
    out[2] = 0x53;
    out[3] = 0x00;
    out[4] = index;
    out[5] = type_byte;
    out[6] = name.len() as u8;
    let n = name.len();
    let mut i: usize = 0;
    while i < n
        invariant
            n == name@.len(),
            N == n + 7,
            out@.len() == N,
            i <= n,
            out@.subrange(0, 7) == seq![0x5Fu8, 0x50u8, 0x53u8, 0x00u8, index, type_byte, n as u8],
            out@.subrange(7, 7 + i) == name@.subrange(0, i as int),
        decreases n - i,
    {
        out[7 + i] = name[i];
        assert(out@.subrange(7, 7 + i + 1) =~= name@.subrange(0, i + 1));
        i = i + 1;
    }
    assert(out@ =~= out@.subrange(0, 7) + out@.subrange(7, 7 + n as int));
    assert(name@.subrange(0, n as int) =~= name@);
    out
}

/// A type a signature parameter's value decodes to.
pub trait SigParamType: Sized {
    /// The type byte in the parameter's name.
    const TYPE_BYTE: u8;

    /// The size of the buffer handed to the host's read.
    const READ_LEN: usize;

    /// What a read gives when the host reported `written` and filled
    /// `bytes` ([`SigParamType::READ_LEN`] of them).
    spec fn sig_decoding(written: Result<usize>, bytes: Seq<u8>) -> Result<Self>;

    /// Decodes the host's answer to a parameter read.
    ///
    /// # Errors
    ///
    /// The host's error, or a size the type does not accept
    /// ([`HookError::TooSmall`] for fixed-size values,
    /// [`HookError::ParseError`] for amounts and issues).
    fn read_sig(written: Result<usize>, buf: &[u8]) -> (r: Result<Self>)
        requires
            buf@.len() == Self::READ_LEN,
        ensures
            r == Self::sig_decoding(written, buf@),
    ;
}

impl SigParamType for u8 {
    const TYPE_BYTE: u8 = 0x10;

    const READ_LEN: usize = 1;

    open spec fn sig_decoding(written: Result<usize>, bytes: Seq<u8>) -> Result<u8> {
        exact_read(written, 1, bytes[0])
    }

    fn read_sig(written: Result<usize>, buf: &[u8]) -> (r: Result<u8>) {
        let n = written?;
        if n != 1 {
            return Err(HookError::TooSmall);
        }
        Ok(buf[0])
    }
}

impl SigParamType for u16 {
    const TYPE_BYTE: u8 = 0x01;

    const READ_LEN: usize = 2;

    open spec fn sig_decoding(written: Result<usize>, bytes: Seq<u8>) -> Result<u16> {
        exact_read(written, 2, u16_of_be(bytes))
    }

    fn read_sig(written: Result<usize>, buf: &[u8]) -> (r: Result<u16>) {
        let n = written?;
        if n != 2 {
            return Err(HookError::TooSmall);
        }
        Ok(u16_from_be(buf))
    }
}

impl SigParamType for u32 {
    const TYPE_BYTE: u8 = 0x02;

    const READ_LEN: usize = 4;

    open spec fn sig_decoding(written: Result<usize>, bytes: Seq<u8>) -> Result<u32> {
        exact_read(written, 4, u32_of_be(bytes))
    }

    fn read_sig(written: Result<usize>, buf: &[u8]) -> (r: Result<u32>) {
        let n = written?;
        if n != 4 {
            return Err(HookError::TooSmall);
        }
        Ok(u32_from_be(buf))
    }
}

impl SigParamType for u64 {
    const TYPE_BYTE: u8 = 0x03;

    const READ_LEN: usize = 8;

    open spec fn sig_decoding(written: Result<usize>, bytes: Seq<u8>) -> Result<u64> {
        exact_read(written, 8, u64_of_be(bytes))
    }

    fn read_sig(written: Result<usize>, buf: &[u8]) -> (r: Result<u64>) {
        let n = written?;
        if n != 8 {
            return Err(HookError::TooSmall);
        }
        Ok(u64_from_be(buf))
    }
}

/// Exactly `N` bytes, as an array equal to [`array_of`] them.
fn exact_bytes<const N: usize>(written: Result<usize>, buf: &[u8]) -> (r: Result<[u8; N]>)
    requires
        buf@.len() == N,
    ensures
        r == exact_read(written, N as nat, array_of::<N>(buf@)),
{
    let n = written?;
    if n != N {
        return Err(HookError::TooSmall);
    }
    let out: [u8; N] = array_from(buf);
    proof {
        lemma_array_view_injective(out, array_of::<N>(out@));
    }
    Ok(out)
}

impl SigParamType for [u8; 16] {
    const TYPE_BYTE: u8 = 0x04;

    const READ_LEN: usize = 16;

    open spec fn sig_decoding(written: Result<usize>, bytes: Seq<u8>) -> Result<[u8; 16]> {
        exact_read(written, 16, array_of(bytes))
    }

    fn read_sig(written: Result<usize>, buf: &[u8]) -> (r: Result<[u8; 16]>) {
        exact_bytes(written, buf)
    }
}

impl SigParamType for [u8; 32] {
    const TYPE_BYTE: u8 = 0x05;

    const READ_LEN: usize = 32;

    open spec fn sig_decoding(written: Result<usize>, bytes: Seq<u8>) -> Result<[u8; 32]> {
        exact_read(written, 32, array_of(bytes))
    }

    fn read_sig(written: Result<usize>, buf: &[u8]) -> (r: Result<[u8; 32]>) {
        exact_bytes(written, buf)
    }
}

impl SigParamType for [u8; 20] {
    const TYPE_BYTE: u8 = 0x11;

    const READ_LEN: usize = 20;

    open spec fn sig_decoding(written: Result<usize>, bytes: Seq<u8>) -> Result<[u8; 20]> {
        exact_read(written, 20, array_of(bytes))
    }

    fn read_sig(written: Result<usize>, buf: &[u8]) -> (r: Result<[u8; 20]>) {
        exact_bytes(written, buf)
    }
}

impl SigParamType for crate::types::Hash {
    const TYPE_BYTE: u8 = 0x05;

    const READ_LEN: usize = 32;

    open spec fn sig_decoding(written: Result<usize>, bytes: Seq<u8>) -> Result<crate::types::Hash> {
        exact_read(written, 32, crate::types::Hash(array_of(bytes)))
    }

    fn read_sig(written: Result<usize>, buf: &[u8]) -> (r: Result<crate::types::Hash>) {
        let b: [u8; 32] = exact_bytes(written, buf)?;
        Ok(crate::types::Hash(b))
    }
}

impl SigParamType for AccountId {
    const TYPE_BYTE: u8 = 0x08;

    const READ_LEN: usize = 20;

    open spec fn sig_decoding(written: Result<usize>, bytes: Seq<u8>) -> Result<AccountId> {
        exact_read(written, 20, AccountId(array_of(bytes)))
    }

    fn read_sig(written: Result<usize>, buf: &[u8]) -> (r: Result<AccountId>) {
        let b: [u8; 20] = exact_bytes(written, buf)?;
        Ok(AccountId(b))
    }
}

impl SigParamType for CurrencyCode {
    const TYPE_BYTE: u8 = 0x1A;

    const READ_LEN: usize = 20;

    open spec fn sig_decoding(written: Result<usize>, bytes: Seq<u8>) -> Result<CurrencyCode> {
        exact_read(written, 20, CurrencyCode(array_of(bytes)))
    }

    fn read_sig(written: Result<usize>, buf: &[u8]) -> (r: Result<CurrencyCode>) {
        let b: [u8; 20] = exact_bytes(written, buf)?;
        Ok(CurrencyCode(b))
    }
}

impl SigParamType for AmountBytes {
    const TYPE_BYTE: u8 = 0x06;

    const READ_LEN: usize = 48;

    open spec fn sig_decoding(written: Result<usize>, bytes: Seq<u8>) -> Result<AmountBytes> {
        match written {
            Err(e) => Err(e),
            Ok(n) => if n <= bytes.len() {
                amount_of(bytes.subrange(0, n as int))
            } else {
                Err(HookError::TooBig)
            },
        }
    }

    fn read_sig(written: Result<usize>, buf: &[u8]) -> (r: Result<AmountBytes>) {
        let n = written?;
        if n > buf.len() {
            return Err(HookError::TooBig);
        }
        classify_amount(vstd::slice::slice_subrange(buf, 0, n))
    }
}

/// A variable-length (`STI_VL`) value of up to `N` bytes.
#[derive(Debug, Clone, Copy, PartialEq, Eq)]
pub struct Blob<const N: usize> {
    /// How many of the bytes hold the value.
    pub len: usize,
    /// The value, followed by whatever the buffer held beyond it.
    pub bytes: [u8; N],
}

impl<const N: usize> Blob<N> {
    /// The value: the first `len` bytes, or nothing when `len` exceeds `N`.
    pub fn as_bytes(&self) -> (out: &[u8])
        ensures
            out@ == (if self.len <= N {
                self.bytes@.subrange(0, self.len as int)
            } else {
                Seq::<u8>::empty()
            }),
    {
        if self.len <= N {
            vstd::slice::slice_subrange(self.bytes.as_slice(), 0, self.len)
        } else {
            let e: &[u8] = &[];
            assert(e@ =~= Seq::<u8>::empty());
            e
        }
    }

    /// The value's length.
    pub fn len(&self) -> (n: usize)
        ensures
            n == self.len,
    {
        self.len
    }

    /// Whether the value is empty.
    pub fn is_empty(&self) -> (b: bool)
        ensures
            b == (self.len == 0),
    {
        self.len == 0
    }
}

impl<const N: usize> SigParamType for Blob<N> {
    const TYPE_BYTE: u8 = 0x07;

    const READ_LEN: usize = N;

    open spec fn sig_decoding(written: Result<usize>, bytes: Seq<u8>) -> Result<Blob<N>> {
        match written {
            Err(e) => Err(e),
            Ok(n) => if n == 0 {
                Err(HookError::TooSmall)
            } else if n > N {
                Err(HookError::TooBig)
            } else {
                Ok(Blob { len: n, bytes: array_of(bytes) })
            },
        }
    }

    fn read_sig(written: Result<usize>, buf: &[u8]) -> (r: Result<Blob<N>>) {
        let n = written?;
        if n == 0 {
            return Err(HookError::TooSmall);
        }
        if n > N {
            return Err(HookError::TooBig);
        }
        let bytes: [u8; N] = array_from(buf);
        proof {
            lemma_array_view_injective(bytes, array_of::<N>(bytes@));
        }
        Ok(Blob { len: n, bytes })
    }
}

/// An `STI_ISSUE` value: the native currency, or an issued currency and
/// its issuer.
#[derive(Debug, Clone, Copy, PartialEq, Eq)]
pub enum IssueBytes {
    /// The native currency (20 zero bytes).
    Native,
    /// An issued currency (40 bytes: currency, then issuer).
    Issued(IssuedAsset),
}

impl SigParamType for IssueBytes {
    const TYPE_BYTE: u8 = 0x18;

    const READ_LEN: usize = 44;

    open spec fn sig_decoding(written: Result<usize>, bytes: Seq<u8>) -> Result<IssueBytes> {
        match written {
            Err(e) => Err(e),
            Ok(n) => if n == 20 {
                if bytes.subrange(0, 20) == Seq::new(20, |i: int| 0u8) {
                    Ok(IssueBytes::Native)
                } else {
                    Err(HookError::ParseError)
                }
            } else if n == 40 {
                Ok(
                    IssueBytes::Issued(
                        IssuedAsset {
                            currency: CurrencyCode(array_of(bytes.subrange(0, 20))),
                            issuer: AccountId(array_of(bytes.subrange(20, 40))),
                        },
                    ),
                )
            } else {
                Err(HookError::ParseError)
            },
        }
    }

    fn read_sig(written: Result<usize>, buf: &[u8]) -> (r: Result<IssueBytes>) {
        let n = written?;
        if n == 20 {
            let native: [u8; 20] = array_from(vstd::slice::slice_subrange(buf, 0, 20));
            let zero = [0u8; 20];
            assert(zero@ =~= Seq::new(20, |i: int| 0u8));
            if buf_eq_20(&native, &zero) {
                Ok(IssueBytes::Native)
            } else {
                Err(HookError::ParseError)
            }
        } else if n == 40 {
            let currency: [u8; 20] = array_from(vstd::slice::slice_subrange(buf, 0, 20));
            let issuer: [u8; 20] = array_from(vstd::slice::slice_subrange(buf, 20, 40));
            proof {
                lemma_array_view_injective(currency, array_of::<20>(currency@));
                lemma_array_view_injective(issuer, array_of::<20>(issuer@));
            }
            Ok(IssueBytes::Issued(IssuedAsset { currency: CurrencyCode(currency), issuer: AccountId(issuer) }))
        } else {
            Err(HookError::ParseError)
        }
    }
}

/// What an `_opt` read gives: `None` when the host answered that the
/// parameter does not exist, the decoded value otherwise.
pub open spec fn sig_opt_reply<T: SigParamType>(code: i64, bytes: Seq<u8>) -> Result<Option<T>> {
    if code == crate::codes::DOESNT_EXIST {
        Ok(None)
    } else {
        match T::sig_decoding(reply_usize(code), bytes) {
            Ok(v) => Ok(Some(v)),
            Err(e) => Err(e),
        }
    }
}

/// A signature parameter of the originating transaction, from the host's
/// `otxn_param` answer `code` and the buffer it wrote.
///
/// # Errors
///
/// As [`SigParamType::read_sig`].
pub fn otxn_sig_param<T: SigParamType>(code: i64, buf: &[u8]) -> (r: Result<T>)
    requires
        buf@.len() == T::READ_LEN,
    ensures
        r == T::sig_decoding(reply_usize(code), buf@),
{
    T::read_sig(res_usize(code), buf)
}

/// A signature parameter of this hook, from the host's `hook_param` answer
/// `code` and the buffer it wrote.
///
/// # Errors
///
/// As [`SigParamType::read_sig`].
pub fn hook_sig_param<T: SigParamType>(code: i64, buf: &[u8]) -> (r: Result<T>)
    requires
        buf@.len() == T::READ_LEN,
    ensures
        r == T::sig_decoding(reply_usize(code), buf@),
{
    T::read_sig(res_usize(code), buf)
}

/// As [`otxn_sig_param`], with an absent parameter as `Ok(None)`.
///
/// # Errors
///
/// As [`SigParamType::read_sig`], for a present parameter.
pub fn otxn_sig_param_opt<T: SigParamType>(code: i64, buf: &[u8]) -> (r: Result<Option<T>>)
    requires
        buf@.len() == T::READ_LEN,
    ensures
        r == sig_opt_reply::<T>(code, buf@),
{
    if code == crate::codes::DOESNT_EXIST {
        return Ok(None);
    }
    match T::read_sig(res_usize(code), buf) {
        Ok(v) => Ok(Some(v)),
        Err(e) => Err(e),
    }
}

/// As [`hook_sig_param`], with an absent parameter as `Ok(None)`.
///
/// # Errors
///
/// As [`SigParamType::read_sig`], for a present parameter.
pub fn hook_sig_param_opt<T: SigParamType>(code: i64, buf: &[u8]) -> (r: Result<Option<T>>)
    requires
        buf@.len() == T::READ_LEN,
    ensures
        r == sig_opt_reply::<T>(code, buf@),
{
    if code == crate::codes::DOESNT_EXIST {
        return Ok(None);
    }
    match T::read_sig(res_usize(code), buf) {
        Ok(v) => Ok(Some(v)),
        Err(e) => Err(e),
    }
}

/// A signature parameter's name, typed by the value it decodes to.
pub struct SigName<V: SigParamType> {
    bytes: &'static [u8],
    _value: PhantomData<V>,
}

impl<V: SigParamType> Clone for SigName<V> {
    fn clone(&self) -> (r: Self)
        ensures
            r.spec_bytes() == self.spec_bytes(),
    {
        SigName { bytes: self.bytes, _value: PhantomData }
    }
}

impl<V: SigParamType> Copy for SigName<V> {

}

impl<V: SigParamType> SigName<V> {
    /// The name's bytes.
    pub closed spec fn spec_bytes(&self) -> Seq<u8> {
        self.bytes@
    }

    /// Wraps a built name (see [`sig_param_name`]).
    pub fn new(bytes: &'static [u8]) -> (n: SigName<V>)
        ensures
            n.spec_bytes() == bytes@,
    {
        SigName { bytes, _value: PhantomData }
    }

    /// The name's bytes, to hand to the host's read.
    pub fn as_bytes(&self) -> (out: &'static [u8])
        ensures
            out@ == self.spec_bytes(),
    {
        self.bytes
    }

    /// Decodes the host's `otxn_param` answer for this name.
    ///
    /// # Errors
    ///
    /// As [`SigParamType::read_sig`].
    pub fn otxn_read(&self, code: i64, buf: &[u8]) -> (r: Result<V>)
        requires
            buf@.len() == V::READ_LEN,
        ensures
            r == V::sig_decoding(reply_usize(code), buf@),
    {
        otxn_sig_param(code, buf)
    }

    /// Decodes the host's `hook_param` answer for this name.
    ///
    /// # Errors
    ///
    /// As [`SigParamType::read_sig`].
    pub fn hook_read(&self, code: i64, buf: &[u8]) -> (r: Result<V>)
        requires
            buf@.len() == V::READ_LEN,
        ensures
            r == V::sig_decoding(reply_usize(code), buf@),
    {
        hook_sig_param(code, buf)
    }
}

/// The type byte and read size of each signature parameter type.
pub proof fn lemma_sig_param_shapes<const N: usize>()
    ensures
        <u8 as SigParamType>::TYPE_BYTE == 0x10 && <u8 as SigParamType>::READ_LEN == 1,
        <u16 as SigParamType>::TYPE_BYTE == 0x01 && <u16 as SigParamType>::READ_LEN == 2,
        <u32 as SigParamType>::TYPE_BYTE == 0x02 && <u32 as SigParamType>::READ_LEN == 4,
        <u64 as SigParamType>::TYPE_BYTE == 0x03 && <u64 as SigParamType>::READ_LEN == 8,
        <[u8; 16] as SigParamType>::TYPE_BYTE == 0x04 && <[u8; 16] as SigParamType>::READ_LEN == 16,
        <[u8; 32] as SigParamType>::TYPE_BYTE == 0x05 && <[u8; 32] as SigParamType>::READ_LEN == 32,
        <[u8; 20] as SigParamType>::TYPE_BYTE == 0x11 && <[u8; 20] as SigParamType>::READ_LEN == 20,
        <crate::types::Hash as SigParamType>::TYPE_BYTE == 0x05
            && <crate::types::Hash as SigParamType>::READ_LEN == 32,
        <AccountId as SigParamType>::TYPE_BYTE == 0x08 && <AccountId as SigParamType>::READ_LEN == 20,
        <CurrencyCode as SigParamType>::TYPE_BYTE == 0x1A
            && <CurrencyCode as SigParamType>::READ_LEN == 20,
        <AmountBytes as SigParamType>::TYPE_BYTE == 0x06 && <AmountBytes as SigParamType>::READ_LEN == 48,
        <Blob<N> as SigParamType>::TYPE_BYTE == 0x07 && <Blob<N> as SigParamType>::READ_LEN == N,
        <IssueBytes as SigParamType>::TYPE_BYTE == 0x18 && <IssueBytes as SigParamType>::READ_LEN == 44,
{
}

/// Integer signature parameters are big-endian over their whole width: a
/// read that filled the buffer gives the positional value of all its bytes,
/// so the bytes of a `u64` decode back to it; any other count is
/// [`HookError::TooSmall`], and the host's error passes through.
pub proof fn lemma_sig_integers_big_endian(b: Seq<u8>, n: usize, e: HookError, v: u64)
    ensures
        b.len() >= 1 ==> <u8 as SigParamType>::sig_decoding(Ok(1), b) == Ok::<u8, HookError>(b[0]),
        b.len() >= 2 ==> (<u16 as SigParamType>::sig_decoding(Ok(2), b) matches Ok(x) && x as int
            == be_value2(b)),
        b.len() >= 4 ==> (<u32 as SigParamType>::sig_decoding(Ok(4), b) matches Ok(x) && x as int
            == be_value4(b)),
        b.len() >= 8 ==> (<u64 as SigParamType>::sig_decoding(Ok(8), b) matches Ok(x) && x as int
            == be_value8(b)),
        <u64 as SigParamType>::sig_decoding(Ok(8), be_u64(v)) == Ok::<u64, HookError>(v),
        n != 1 ==> <u8 as SigParamType>::sig_decoding(Ok(n), b) == Err::<u8, HookError>(HookError::TooSmall),
        n != 2 ==> <u16 as SigParamType>::sig_decoding(Ok(n), b) == Err::<u16, HookError>(HookError::TooSmall),
        n != 4 ==> <u32 as SigParamType>::sig_decoding(Ok(n), b) == Err::<u32, HookError>(HookError::TooSmall),
        n != 8 ==> <u64 as SigParamType>::sig_decoding(Ok(n), b) == Err::<u64, HookError>(HookError::TooSmall),
        <u8 as SigParamType>::sig_decoding(Err(e), b) == Err::<u8, HookError>(e),
        <u16 as SigParamType>::sig_decoding(Err(e), b) == Err::<u16, HookError>(e),
        <u32 as SigParamType>::sig_decoding(Err(e), b) == Err::<u32, HookError>(e),
        <u64 as SigParamType>::sig_decoding(Err(e), b) == Err::<u64, HookError>(e),
{
    if b.len() >= 2 {
        lemma_u16_of_be_value(b);
    }
    if b.len() >= 4 {
        lemma_u32_of_be_value(b);
    }
    if b.len() >= 8 {
        lemma_u64_of_be_value(b);
    }
    lemma_u64_be_round_trip(v, be_u64(v));
}

/// Amount, blob and issue signature parameters keep exactly the bytes the
/// host reported writing. An amount answer of `n` bytes that fits the
/// 48-byte buffer (the full buffer included) is classified from the first
/// `n` bytes, so 48 bytes are an issued amount and 8 a native one, and a
/// larger answer is [`HookError::TooBig`]. A blob holds between 1 and `N`
/// bytes. An issue is 20 zero bytes for the native currency or 40 bytes of
/// currency then issuer.
pub proof fn lemma_sig_sized_values<const N: usize>(n: usize, amount: Seq<u8>, blob: Seq<u8>, issue: Seq<u8>)
    requires
        amount.len() == 48,
        blob.len() == N,
        issue.len() == 44,
    ensures
        n <= 48 ==> <AmountBytes as SigParamType>::sig_decoding(Ok(n), amount) == amount_of(
            amount.subrange(0, n as int),
        ),
        n == 48 ==> <AmountBytes as SigParamType>::sig_decoding(Ok(n), amount) == Ok::<
            AmountBytes,
            HookError,
        >(AmountBytes::Iou(IouAmount(array_of(amount)))),
        n == 8 ==> <AmountBytes as SigParamType>::sig_decoding(Ok(n), amount) == Ok::<
            AmountBytes,
            HookError,
        >(AmountBytes::Native(NativeAmount(array_of(amount.subrange(0, 8))))),
        n > 48 ==> <AmountBytes as SigParamType>::sig_decoding(Ok(n), amount) == Err::<
            AmountBytes,
            HookError,
        >(HookError::TooBig),
        1 <= n <= N ==> (<Blob<N> as SigParamType>::sig_decoding(Ok(n), blob) matches Ok(v) && v.len
            == n && v.bytes == array_of::<N>(blob)),
        n == 0 ==> <Blob<N> as SigParamType>::sig_decoding(Ok(n), blob) == Err::<Blob<N>, HookError>(
            HookError::TooSmall,
        ),
        n > N ==> <Blob<N> as SigParamType>::sig_decoding(Ok(n), blob) == Err::<Blob<N>, HookError>(
            HookError::TooBig,
        ),
        (forall|i: int| 0 <= i < 20 ==> issue[i] == 0u8) ==> <IssueBytes as SigParamType>::sig_decoding(
            Ok(20),
            issue,
        ) == Ok::<IssueBytes, HookError>(IssueBytes::Native),
        (exists|i: int| 0 <= i < 20 && issue[i] != 0u8) ==> <IssueBytes as SigParamType>::sig_decoding(
            Ok(20),
            issue,
        ) == Err::<IssueBytes, HookError>(HookError::ParseError),
        <IssueBytes as SigParamType>::sig_decoding(Ok(40), issue) matches Ok(IssueBytes::Issued(a))
            && a.currency == CurrencyCode(array_of(issue.subrange(0, 20))) && a.issuer == AccountId(
            array_of(issue.subrange(20, 40)),
        ),
        n != 20 && n != 40 ==> <IssueBytes as SigParamType>::sig_decoding(Ok(n), issue) == Err::<
            IssueBytes,
            HookError,
        >(HookError::ParseError),
{
    assert(amount.subrange(0, 48) =~= amount);
    if forall|i: int| 0 <= i < 20 ==> issue[i] == 0u8 {
        assert(issue.subrange(0, 20) =~= Seq::new(20, |i: int| 0u8));
    }
    if exists|i: int| 0 <= i < 20 && issue[i] != 0u8 {
        let i = choose|i: int| 0 <= i < 20 && issue[i] != 0u8;
        assert(issue.subrange(0, 20)[i] != Seq::new(20, |i: int| 0u8)[i]);
    }
}

} // verus!
