//! The originating transaction: its fields, ID and parameters.
//!
//! Protocol fields are big-endian on the wire; [`otxn_field_typed`] decodes
//! every field type it models itself, choosing the read by the field's own
//! type.

use vstd::prelude::*;
use crate::bytes::{be_value8, lemma_u64_of_be_value, u64_of_be, u64_from_be};
use crate::convert::{array_of, exact_array_read, exact_read, FixedRead, TypedParamName};
use crate::error::{HookError, Result};
use crate::reply::{reply_u64, reply_usize, res_u64, res_usize};
use crate::slot_obj::{
    amount_of, classify_amount, classify_issue, issue_of, read_prefix, AmountBytes, IssueData,
};
use crate::types::{AccountId, Amount, CurrencyCode, IouAmount, Issue, NativeAmount, SField};
use crate::api::hook_ctx::param_opt_reply;

verus! {

/// A field of the originating transaction read as exactly a `T`, from the
/// host's `otxn_field` answer and the [`FixedRead::READ_LEN`]-byte buffer
/// it wrote.
///
/// # Errors
///
/// The host's error, or [`HookError::TooSmall`] for a field of any other
/// size.
pub fn otxn_field_exact<T: FixedRead>(code: i64, buf: &[u8]) -> (r: Result<T>)
    requires
        buf@.len() == T::READ_LEN,
    ensures
        r == exact_read(reply_usize(code), T::READ_LEN as nat, T::fixed_decoding(buf@)),
{
    T::read_exact(res_usize(code), buf)
}

/// Restricts [`OtxnFieldValue`] to the field types modeled here.
pub trait Sealed {

}

/// A field type [`otxn_field_typed`] knows how to read and decode.
pub trait OtxnFieldValue: Sealed + Sized {
    /// What the field decodes to.
    type Output;

    /// The buffer handed to `otxn_field`; `0` for the host's as-int64 mode.
    const READ_LEN: usize;

    /// What the field decodes to when the host answered `code` and wrote
    /// `bytes`.
    spec fn field_decoding(code: i64, bytes: Seq<u8>) -> Result<Self::Output>;

    /// Decodes the host's `otxn_field` answer.
    ///
    /// # Errors
    ///
    /// The host's error, or a value that does not decode as this type.
    fn read_otxn_field(code: i64, buf: &[u8]) -> (r: Result<Self::Output>)
        requires
            buf@.len() == Self::READ_LEN,
        ensures
            r == Self::field_decoding(code, buf@),
    ;
}

/// What an as-int64 read of a narrow integer gives: the host's error, the
/// value when it fits under `max`, and [`HookError::TooBig`] otherwise.
pub open spec fn narrow_int(code: i64, max: u64) -> Result<u64> {
    match reply_u64(code) {
        Err(e) => Err(e),
        Ok(v) => if v <= max {
            Ok(v)
        } else {
            Err(HookError::TooBig)
        },
    }
}

fn read_narrow(code: i64, max: u64) -> (r: Result<u64>)
    ensures
        r == narrow_int(code, max),
{
    let v = res_u64(code)?;
    if v > max {
        return Err(HookError::TooBig);
    }
    Ok(v)
}

impl Sealed for u8 {

}

impl OtxnFieldValue for u8 {
    type Output = u8;

    const READ_LEN: usize = 0;

    open spec fn field_decoding(code: i64, bytes: Seq<u8>) -> Result<u8> {
        match narrow_int(code, 0xFF) {
            Ok(v) => Ok(v as u8),
            Err(e) => Err(e),
        }
    }

    fn read_otxn_field(code: i64, buf: &[u8]) -> (r: Result<u8>) {
        let v = read_narrow(code, 0xFF)?;
        Ok(v as u8)
    }
}

impl Sealed for u16 {

}

impl OtxnFieldValue for u16 {
    type Output = u16;

    const READ_LEN: usize = 0;

    open spec fn field_decoding(code: i64, bytes: Seq<u8>) -> Result<u16> {
        match narrow_int(code, 0xFFFF) {
            Ok(v) => Ok(v as u16),
            Err(e) => Err(e),
        }
    }

    fn read_otxn_field(code: i64, buf: &[u8]) -> (r: Result<u16>) {
        let v = read_narrow(code, 0xFFFF)?;
        Ok(v as u16)
    }
}

impl Sealed for u32 {

}

impl OtxnFieldValue for u32 {
    type Output = u32;

    const READ_LEN: usize = 0;

    open spec fn field_decoding(code: i64, bytes: Seq<u8>) -> Result<u32> {
        match narrow_int(code, 0xFFFF_FFFF) {
            Ok(v) => Ok(v as u32),
            Err(e) => Err(e),
        }
    }

    fn read_otxn_field(code: i64, buf: &[u8]) -> (r: Result<u32>) {
        let v = read_narrow(code, 0xFFFF_FFFF)?;
        Ok(v as u32)
    }
}

impl Sealed for u64 {

}

impl OtxnFieldValue for u64 {
    type Output = u64;

    const READ_LEN: usize = 8;

    open spec fn field_decoding(code: i64, bytes: Seq<u8>) -> Result<u64> {
        exact_read(reply_usize(code), 8, u64_of_be(bytes))
    }

    fn read_otxn_field(code: i64, buf: &[u8]) -> (r: Result<u64>) {
        let n = res_usize(code)?;
        if n != 8 {
            return Err(HookError::TooSmall);
        }
        Ok(u64_from_be(buf))
    }
}

impl Sealed for crate::types::Hash {

}

impl OtxnFieldValue for crate::types::Hash {
    type Output = crate::types::Hash;

    const READ_LEN: usize = 32;

    open spec fn field_decoding(code: i64, bytes: Seq<u8>) -> Result<crate::types::Hash> {
        exact_read(reply_usize(code), 32, crate::types::Hash(array_of(bytes)))
    }

    fn read_otxn_field(code: i64, buf: &[u8]) -> (r: Result<crate::types::Hash>) {
        let b: [u8; 32] = exact_array_read(res_usize(code), buf)?;
        Ok(crate::types::Hash(b))
    }
}

impl Sealed for AccountId {

}

impl OtxnFieldValue for AccountId {
    type Output = AccountId;

    const READ_LEN: usize = 20;

    open spec fn field_decoding(code: i64, bytes: Seq<u8>) -> Result<AccountId> {
        exact_read(reply_usize(code), 20, AccountId(array_of(bytes)))
    }

    fn read_otxn_field(code: i64, buf: &[u8]) -> (r: Result<AccountId>) {
        let b: [u8; 20] = exact_array_read(res_usize(code), buf)?;
        Ok(AccountId(b))
    }
}

impl Sealed for CurrencyCode {

}

impl OtxnFieldValue for CurrencyCode {
    type Output = CurrencyCode;

    const READ_LEN: usize = 20;

    open spec fn field_decoding(code: i64, bytes: Seq<u8>) -> Result<CurrencyCode> {
        exact_read(reply_usize(code), 20, CurrencyCode(array_of(bytes)))
    }

    fn read_otxn_field(code: i64, buf: &[u8]) -> (r: Result<CurrencyCode>) {
        let b: [u8; 20] = exact_array_read(res_usize(code), buf)?;
        Ok(CurrencyCode(b))
    }
}

/// The prefix of `buf` the host reported writing.
fn reported_prefix<'a>(code: i64, buf: &'a [u8]) -> (r: Result<&'a [u8]>)
    ensures
        match read_prefix(code, buf@) {
            Ok(s) => r is Ok && r->Ok_0@ == s,
            Err(e) => r == Err::<&[u8], HookError>(e),
        },
{
    let n = res_usize(code)?;
    if n > buf.len() {
        return Err(HookError::TooBig);
    }
    Ok(vstd::slice::slice_subrange(buf, 0, n))
}

impl Sealed for Amount {

}

impl OtxnFieldValue for Amount {
    type Output = AmountBytes;

    const READ_LEN: usize = 48;

    open spec fn field_decoding(code: i64, bytes: Seq<u8>) -> Result<AmountBytes> {
        match read_prefix(code, bytes) {
            Ok(s) => amount_of(s),
            Err(e) => Err(e),
        }
    }

    fn read_otxn_field(code: i64, buf: &[u8]) -> (r: Result<AmountBytes>) {
        let bytes = reported_prefix(code, buf)?;
        classify_amount(bytes)
    }
}

impl Sealed for Issue {

}

impl OtxnFieldValue for Issue {
    type Output = IssueData;

    const READ_LEN: usize = 44;

    open spec fn field_decoding(code: i64, bytes: Seq<u8>) -> Result<IssueData> {
        match read_prefix(code, bytes) {
            Ok(s) => issue_of(s),
            Err(e) => Err(e),
        }
    }

    fn read_otxn_field(code: i64, buf: &[u8]) -> (r: Result<IssueData>) {
        let bytes = reported_prefix(code, buf)?;
        classify_issue(bytes)
    }
}

/// A field of the originating transaction, decoded as the type `field`
/// carries, from the host's `otxn_field` answer for `field`'s code (with an
/// [`OtxnFieldValue::READ_LEN`]-byte buffer).
///
/// # Errors
///
/// As [`OtxnFieldValue::read_otxn_field`].
pub fn otxn_field_typed<T: OtxnFieldValue>(field: SField<T>, code: i64, buf: &[u8]) -> (r: Result<T::Output>)
    requires
        buf@.len() == T::READ_LEN,
    ensures
        r == T::field_decoding(code, buf@),
{
    T::read_otxn_field(code, buf)
}

/// The originating transaction's ID, from the host's `otxn_id` answer and
/// the 32-byte buffer it wrote.
///
/// # Errors
///
/// The host's error, or [`HookError::TooSmall`] for a short answer.
pub fn otxn_id_buf(code: i64, buf: &[u8]) -> (r: Result<crate::types::Hash>)
    requires
        buf@.len() == 32,
    ensures
        r == exact_read(reply_usize(code), 32, crate::types::Hash(array_of(buf@))),
{
    let b: [u8; 32] = exact_array_read(res_usize(code), buf)?;
    Ok(crate::types::Hash(b))
}

/// A parameter of the originating transaction read as exactly a `T`.
///
/// # Errors
///
/// The host's error, or [`HookError::TooSmall`] for a value of any other
/// size.
pub fn otxn_param_exact<T: FixedRead>(code: i64, buf: &[u8]) -> (r: Result<T>)
    requires
        buf@.len() == T::READ_LEN,
    ensures
        r == exact_read(reply_usize(code), T::READ_LEN as nat, T::fixed_decoding(buf@)),
{
    T::read_exact(res_usize(code), buf)
}

/// A parameter of the originating transaction, `None` when absent.
///
/// # Errors
///
/// As [`otxn_param_exact`], for a present parameter.
pub fn otxn_param_opt<T: FixedRead>(code: i64, buf: &[u8]) -> (r: Result<Option<T>>)
    requires
        buf@.len() == T::READ_LEN,
    ensures
        r == param_opt_reply::<T>(code, buf@),
{
    if code == crate::codes::DOESNT_EXIST {
        return Ok(None);
    }
    match T::read_exact(res_usize(code), buf) {
        Ok(v) => Ok(Some(v)),
        Err(e) => Err(e),
    }
}

/// As [`otxn_param_exact`], for the value type `name` fixes.
///
/// # Errors
///
/// As [`otxn_param_exact`].
pub fn otxn_param_typed<N: TypedParamName>(name: &N, code: i64, buf: &[u8]) -> (r: Result<N::Value>)
    requires
        buf@.len() == N::Value::READ_LEN,
    ensures
        r == exact_read(
            reply_usize(code),
            N::Value::READ_LEN as nat,
            N::Value::fixed_decoding(buf@),
        ),
{
    otxn_param_exact::<N::Value>(code, buf)
}

/// The buffer each typed transaction field is read with: none for the
/// narrow integers (the host's as-int64 mode), the field's size otherwise.
pub proof fn lemma_otxn_field_read_lens()
    ensures
        <u8 as OtxnFieldValue>::READ_LEN == 0,
        <u16 as OtxnFieldValue>::READ_LEN == 0,
        <u32 as OtxnFieldValue>::READ_LEN == 0,
        <u64 as OtxnFieldValue>::READ_LEN == 8,
        <crate::types::Hash as OtxnFieldValue>::READ_LEN == 32,
        <AccountId as OtxnFieldValue>::READ_LEN == 20,
        <CurrencyCode as OtxnFieldValue>::READ_LEN == 20,
        <Amount as OtxnFieldValue>::READ_LEN == 48,
        <Issue as OtxnFieldValue>::READ_LEN == 44,
{
}

/// Amount and issue fields of the originating transaction keep exactly the
/// bytes the host reported writing: an answer of `n` bytes that fits the
/// buffer (48 for an amount, 44 for an issue, the full buffer included) is
/// classified from the first `n` bytes, so a 48-byte answer is an issued
/// amount and an 8-byte one a native amount; a larger answer is
/// [`HookError::TooBig`], and a negative one the host's error.
pub proof fn lemma_otxn_amount_issue_fields(code: i64, amount_buf: Seq<u8>, issue_buf: Seq<u8>)
    requires
        amount_buf.len() == 48,
        issue_buf.len() == 44,
    ensures
        code < 0 ==> <Amount as OtxnFieldValue>::field_decoding(code, amount_buf)
            == Err::<AmountBytes, HookError>(HookError::of(code)),
        0 <= code <= 48 ==> <Amount as OtxnFieldValue>::field_decoding(code, amount_buf)
            == amount_of(amount_buf.subrange(0, code as int)),
        code == 48 ==> <Amount as OtxnFieldValue>::field_decoding(code, amount_buf)
            == Ok::<AmountBytes, HookError>(AmountBytes::Iou(IouAmount(array_of(amount_buf)))),
        code == 8 ==> <Amount as OtxnFieldValue>::field_decoding(code, amount_buf)
            == Ok::<AmountBytes, HookError>(
            AmountBytes::Native(NativeAmount(array_of(amount_buf.subrange(0, 8)))),
        ),
        48 < code <= usize::MAX ==> <Amount as OtxnFieldValue>::field_decoding(code, amount_buf)
            == Err::<AmountBytes, HookError>(HookError::TooBig),
        code < 0 ==> <Issue as OtxnFieldValue>::field_decoding(code, issue_buf)
            == Err::<IssueData, HookError>(HookError::of(code)),
        0 <= code <= 44 ==> <Issue as OtxnFieldValue>::field_decoding(code, issue_buf)
            == issue_of(issue_buf.subrange(0, code as int)),
        code == 20 ==> <Issue as OtxnFieldValue>::field_decoding(code, issue_buf)
            == Ok::<IssueData, HookError>(IssueData::Native),
        44 < code <= usize::MAX ==> <Issue as OtxnFieldValue>::field_decoding(code, issue_buf)
            == Err::<IssueData, HookError>(HookError::TooBig),
{
    assert(amount_buf.subrange(0, 48) =~= amount_buf);
}

/// Integer fields of the originating transaction: the narrow ones are the
/// host's as-int64 answer itself, [`HookError::TooBig`] when it does not fit
/// the width; a `u64` is its 8 written bytes read big-endian over their
/// whole width, and any other count is [`HookError::TooSmall`]. A negative
/// answer is the host's error for each.
pub proof fn lemma_otxn_integer_fields(code: i64, bytes: Seq<u8>)
    requires
        bytes.len() == 8,
    ensures
        0 <= code <= 0xFF ==> <u8 as OtxnFieldValue>::field_decoding(code, bytes) == Ok::<u8, HookError>(
            code as u8,
        ),
        0xFF < code ==> <u8 as OtxnFieldValue>::field_decoding(code, bytes) == Err::<u8, HookError>(
            HookError::TooBig,
        ),
        0 <= code <= 0xFFFF ==> <u16 as OtxnFieldValue>::field_decoding(code, bytes) == Ok::<
            u16,
            HookError,
        >(code as u16),
        0xFFFF < code ==> <u16 as OtxnFieldValue>::field_decoding(code, bytes) == Err::<u16, HookError>(
            HookError::TooBig,
        ),
        0 <= code <= 0xFFFF_FFFF ==> <u32 as OtxnFieldValue>::field_decoding(code, bytes) == Ok::<
            u32,
            HookError,
        >(code as u32),
        0xFFFF_FFFF < code ==> <u32 as OtxnFieldValue>::field_decoding(code, bytes) == Err::<
            u32,
            HookError,
        >(HookError::TooBig),
        code == 8 ==> (<u64 as OtxnFieldValue>::field_decoding(code, bytes) matches Ok(v) && v as int
            == be_value8(bytes)),
        0 <= code <= 0xFFFF_FFFF && code != 8 ==> <u64 as OtxnFieldValue>::field_decoding(code, bytes)
            == Err::<u64, HookError>(HookError::TooSmall),
        code < 0 ==> <u8 as OtxnFieldValue>::field_decoding(code, bytes) == Err::<u8, HookError>(
            HookError::of(code),
        ),
        code < 0 ==> <u16 as OtxnFieldValue>::field_decoding(code, bytes) == Err::<u16, HookError>(
            HookError::of(code),
        ),
        code < 0 ==> <u32 as OtxnFieldValue>::field_decoding(code, bytes) == Err::<u32, HookError>(
            HookError::of(code),
        ),
        code < 0 ==> <u64 as OtxnFieldValue>::field_decoding(code, bytes) == Err::<u64, HookError>(
            HookError::of(code),
        ),
{
    lemma_u64_of_be_value(bytes);
}

} // verus!
