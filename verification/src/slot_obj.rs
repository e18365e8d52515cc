//! Typed handles over Hook API slots: [`SlotObject<T>`], where `T` says what
//! the slot holds (an object, an array, an amount, an issue, an integer, an
//! account ...). Each operation takes the host's answer to the slot call it
//! stands for and turns it into the typed result; the caller makes the
//! call, naming the slot with [`SlotObject::slot_no`].
//!
//! Amounts and issues are classified by their serialized length: 8 bytes is
//! a native amount and 48 an issued one; a 20-byte issue is the native
//! currency and a 40-byte one a currency followed by its issuer. Every other
//! length is [`HookError::ParseError`], never a misclassification.

use vstd::prelude::*;
use core::marker::PhantomData;
use crate::bytes::{be_value8, lemma_u64_of_be_value, u64_of_be, u64_from_be};
use crate::convert::{array_from, array_of, exact_read, lemma_array_view_injective};
use crate::error::{HookError, Result};
use crate::reply::{reply_u32, reply_u64, reply_usize, res_u32, res_u64, res_usize};
use crate::types::{
    AccountId, Amount, CurrencyCode, IouAmount, Issue, IssuedAsset, NativeAmount, Opaque, SField,
    STArray, STObject, XFL,
};

verus! {

/// A serialized amount, classified by its length.
#[derive(Debug, Clone, Copy, PartialEq, Eq)]
pub enum AmountBytes {
    /// An 8-byte native amount.
    Native(NativeAmount),
    /// A 48-byte issued amount.
    Iou(IouAmount),
}

/// A serialized issue, classified by its length.
#[derive(Debug, Clone, Copy, PartialEq, Eq)]
pub enum IssueData {
    /// The native currency (a 20-byte all-currency-code issue).
    Native,
    /// An issued currency and its issuer.
    Iou(IssuedAsset),
}

/// The read buffer for an issue: wide enough for the 44-byte issue encoding
/// this layer does not decode, so that one is read and rejected as
/// [`HookError::ParseError`] rather than failing the read as too small.
pub const ISSUE_MAX_READ_LEN: usize = 44;

/// How `bytes` classify as an amount.
pub open spec fn amount_of(bytes: Seq<u8>) -> Result<AmountBytes> {
    if bytes.len() == 8 {
        Ok(AmountBytes::Native(NativeAmount(array_of(bytes))))
    } else if bytes.len() == 48 {
        Ok(AmountBytes::Iou(IouAmount(array_of(bytes))))
    } else {
        Err(HookError::ParseError)
    }
}

/// How `bytes` classify as an issue.
pub open spec fn issue_of(bytes: Seq<u8>) -> Result<IssueData> {
    if bytes.len() == 20 {
        Ok(IssueData::Native)
    } else if bytes.len() == 40 {
        Ok(
            IssueData::Iou(
                IssuedAsset {
                    currency: CurrencyCode(array_of(bytes.subrange(0, 20))),
                    issuer: AccountId(array_of(bytes.subrange(20, 40))),
                },
            ),
        )
    } else {
        Err(HookError::ParseError)
    }
}

/// Copies `src` into an array equal to [`array_of`] its bytes.
fn exact_array<const N: usize>(src: &[u8]) -> (out: [u8; N])
    requires
        src@.len() == N,
    ensures
        out == array_of::<N>(src@),
        out@ == src@,
{
    let out: [u8; N] = array_from(src);
    proof {
        lemma_array_view_injective(out, array_of::<N>(out@));
    }
    out
}

/// Classifies a serialized amount by its length.
///
/// # Errors
///
/// [`HookError::ParseError`] for any length but 8 and 48.
pub fn classify_amount(bytes: &[u8]) -> (r: Result<AmountBytes>)
    ensures
        r == amount_of(bytes@),
{
    if bytes.len() == 8 {
        Ok(AmountBytes::Native(NativeAmount(exact_array(bytes))))
    } else if bytes.len() == 48 {
        Ok(AmountBytes::Iou(IouAmount(exact_array(bytes))))
    } else {
        Err(HookError::ParseError)
    }
}

/// Classifies a serialized issue by its length.
///
/// # Errors
///
/// [`HookError::ParseError`] for any length but 20 and 40.
pub fn classify_issue(bytes: &[u8]) -> (r: Result<IssueData>)
    ensures
        r == issue_of(bytes@),
{
    if bytes.len() == 20 {
        Ok(IssueData::Native)
    } else if bytes.len() == 40 {
        let currency: [u8; 20] = exact_array(vstd::slice::slice_subrange(bytes, 0, 20));
        let issuer: [u8; 20] = exact_array(vstd::slice::slice_subrange(bytes, 20, 40));
        Ok(IssueData::Iou(IssuedAsset { currency: CurrencyCode(currency), issuer: AccountId(issuer) }))
    } else {
        Err(HookError::ParseError)
    }
}

/// What a value read into a `cap`-byte buffer gives when the host answered
/// `code` and wrote `buf`: the host's error, [`HookError::TooBig`] for a
/// count beyond the buffer, and otherwise the written prefix.
pub open spec fn read_prefix(code: i64, buf: Seq<u8>) -> Result<Seq<u8>> {
    match reply_usize(code) {
        Err(e) => Err(e),
        Ok(n) => if n <= buf.len() {
            Ok(buf.subrange(0, n as int))
        } else {
            Err(HookError::TooBig)
        },
    }
}

/// A read keeps exactly the prefix the host reported writing, the whole
/// buffer included; a count beyond the buffer is [`HookError::TooBig`] and a
/// negative answer the host's error.
pub proof fn lemma_read_prefix(code: i64, buf: Seq<u8>)
    requires
        buf.len() <= usize::MAX,
    ensures
        code < 0 ==> read_prefix(code, buf) == Err::<Seq<u8>, HookError>(HookError::of(code)),
        0 <= code <= buf.len() ==> read_prefix(code, buf) == Ok::<Seq<u8>, HookError>(
            buf.subrange(0, code as int),
        ),
        0 <= code <= buf.len() ==> (read_prefix(code, buf) matches Ok(s) && s.len() == code && (forall|
            i: int,
        | 0 <= i < code ==> s[i] == buf[i])),
        buf.len() < code <= usize::MAX ==> read_prefix(code, buf) == Err::<Seq<u8>, HookError>(
            HookError::TooBig,
        ),
{
}

/// The prefix of `buf` the host reported writing.
fn written_prefix<'a>(code: i64, buf: &'a [u8]) -> (r: Result<&'a [u8]>)
    ensures
        match read_prefix(code, buf@) {
            Ok(s) => r is Ok && r->Ok_0@ == s,
            Err(e) => r == Err::<&[u8], HookError>(e),
        },
{
    let n = res_usize(code)?;
    if n > buf.len() {
        return Err(HookError::TooBig);
    }
    Ok(vstd::slice::slice_subrange(buf, 0, n))
}

/// Which host call derives a child slot.
#[derive(Debug, Clone, Copy, PartialEq, Eq, Structural)]
pub enum SlotRequest {
    /// `slot_subfield` with this field code.
    Subfield(u32),
    /// `slot_subarray` with this element index.
    Subarray(u32),
}

/// How a navigation key derives a child slot.
pub trait Resolve {
    /// The host call that derives the child.
    spec fn request_spec(&self) -> SlotRequest;

    /// The host call that derives the child.
    fn request(&self) -> (r: SlotRequest)
        ensures
            r == self.request_spec(),
    ;
}

/// A key that navigates from a slot holding a `Parent` to a child slot
/// holding an `Out`: a field code inside an object, an index inside an
/// array.
pub trait SlotKey<Parent>: Resolve {
    /// What the child slot holds.
    type Out;
}

impl<T> Resolve for SField<T> {
    open spec fn request_spec(&self) -> SlotRequest {
        SlotRequest::Subfield(self.spec_code())
    }

    fn request(&self) -> (r: SlotRequest) {
        SlotRequest::Subfield(self.code())
    }
}

impl<T> SlotKey<STObject> for SField<T> {
    type Out = T;
}

impl<T> SlotKey<Opaque> for SField<T> {
    type Out = T;
}

impl Resolve for u32 {
    open spec fn request_spec(&self) -> SlotRequest {
        SlotRequest::Subarray(*self)
    }

    fn request(&self) -> (r: SlotRequest) {
        SlotRequest::Subarray(*self)
    }
}

impl SlotKey<STArray> for u32 {
    type Out = STObject;
}

impl SlotKey<Opaque> for u32 {
    type Out = STObject;
}

/// Which serialized type IDs a cast target accepts.
pub trait CastTargetSealed {
    /// Whether a slot of serialized type `type_id` holds this target.
    spec fn accepts_spec(type_id: u32) -> bool;

    /// Whether a slot of serialized type `type_id` holds this target.
    fn accepts(type_id: u32) -> (b: bool)
        ensures
            b == Self::accepts_spec(type_id),
    ;
}

/// A type a slot may be checked to hold with [`SlotObject::try_cast`].
pub trait CastTarget: CastTargetSealed {

}

impl CastTargetSealed for STObject {
    open spec fn accepts_spec(type_id: u32) -> bool {
        type_id == 14 || (10001 <= type_id <= 10004)
    }

    fn accepts(type_id: u32) -> (b: bool) {
        type_id == 14 || (10001 <= type_id && type_id <= 10004)
    }
}

impl CastTarget for STObject {

}

/// Cast targets of one serialized type ID each.
impl CastTargetSealed for STArray {
    open spec fn accepts_spec(type_id: u32) -> bool {
        type_id == 15
    }

    fn accepts(type_id: u32) -> (b: bool) {
        type_id == 15
    }
}

impl CastTarget for STArray {

}

impl CastTargetSealed for Amount {
    open spec fn accepts_spec(type_id: u32) -> bool {
        type_id == 6
    }

    fn accepts(type_id: u32) -> (b: bool) {
        type_id == 6
    }
}

impl CastTarget for Amount {

}

impl CastTargetSealed for Issue {
    open spec fn accepts_spec(type_id: u32) -> bool {
        type_id == 24
    }

    fn accepts(type_id: u32) -> (b: bool) {
        type_id == 24
    }
}

impl CastTarget for Issue {

}

impl CastTargetSealed for u8 {
    open spec fn accepts_spec(type_id: u32) -> bool {
        type_id == 16
    }

    fn accepts(type_id: u32) -> (b: bool) {
        type_id == 16
    }
}

impl CastTarget for u8 {

}

impl CastTargetSealed for u16 {
    open spec fn accepts_spec(type_id: u32) -> bool {
        type_id == 1
    }

    fn accepts(type_id: u32) -> (b: bool) {
        type_id == 1
    }
}

impl CastTarget for u16 {

}

impl CastTargetSealed for u32 {
    open spec fn accepts_spec(type_id: u32) -> bool {
        type_id == 2
    }

    fn accepts(type_id: u32) -> (b: bool) {
        type_id == 2
    }
}

impl CastTarget for u32 {

}

impl CastTargetSealed for u64 {
    open spec fn accepts_spec(type_id: u32) -> bool {
        type_id == 3
    }

    fn accepts(type_id: u32) -> (b: bool) {
        type_id == 3
    }
}

impl CastTarget for u64 {

}

impl CastTargetSealed for crate::types::Hash {
    open spec fn accepts_spec(type_id: u32) -> bool {
        type_id == 5
    }

    fn accepts(type_id: u32) -> (b: bool) {
        type_id == 5
    }
}

impl CastTarget for crate::types::Hash {

}

impl CastTargetSealed for AccountId {
    open spec fn accepts_spec(type_id: u32) -> bool {
        type_id == 8
    }

    fn accepts(type_id: u32) -> (b: bool) {
        type_id == 8
    }
}

impl CastTarget for AccountId {

}

impl CastTargetSealed for CurrencyCode {
    open spec fn accepts_spec(type_id: u32) -> bool {
        type_id == 26
    }

    fn accepts(type_id: u32) -> (b: bool) {
        type_id == 26
    }
}

impl CastTarget for CurrencyCode {

}

/// Which serialized type IDs each cast target accepts: an object is a
/// nested object field (14) or a root slot loaded from a transaction, a
/// ledger entry or their companions (10001 to 10004); every other target
/// accepts its own ID and nothing else.
pub proof fn lemma_cast_targets_accept(type_id: u32)
    ensures
        <STObject as CastTargetSealed>::accepts_spec(type_id) <==> (type_id == 14 || (10001 <= type_id
            && type_id <= 10004)),
        <STArray as CastTargetSealed>::accepts_spec(type_id) <==> type_id == 15,
        <Amount as CastTargetSealed>::accepts_spec(type_id) <==> type_id == 6,
        <Issue as CastTargetSealed>::accepts_spec(type_id) <==> type_id == 24,
        <u8 as CastTargetSealed>::accepts_spec(type_id) <==> type_id == 16,
        <u16 as CastTargetSealed>::accepts_spec(type_id) <==> type_id == 1,
        <u32 as CastTargetSealed>::accepts_spec(type_id) <==> type_id == 2,
        <u64 as CastTargetSealed>::accepts_spec(type_id) <==> type_id == 3,
        <crate::types::Hash as CastTargetSealed>::accepts_spec(type_id) <==> type_id == 5,
        <AccountId as CastTargetSealed>::accepts_spec(type_id) <==> type_id == 8,
        <CurrencyCode as CastTargetSealed>::accepts_spec(type_id) <==> type_id == 26,
{
}

/// A slot whose `slot_type` answer names a nested object (type ID 14) or a
/// root object (10001 to 10004; a ledger entry loaded from a keylet
/// answers with 10002 in the high half) is accepted as an object, so [`SlotObject::try_cast`] to
/// [`STObject`] gives back the same slot.
pub proof fn lemma_object_cast_accepts_roots(slot_type: i64)
    requires
        0 <= slot_type <= 0xFFFF_FFFF,
        slot_type / 65536 == 14 || (10001 <= slot_type / 65536 && slot_type / 65536 <= 10004),
    ensures
        reply_u32(slot_type) matches Ok(code) && code == slot_type
            && <STObject as CastTargetSealed>::accepts_spec(code / 65536),
{
}

/// A handle on a Hook API slot holding a `T`.
pub struct SlotObject<T> {
    no: u32,
    _t: PhantomData<T>,
}

/// What a slot-number answer gives: the handle on that slot, or the
/// host's error.
pub open spec fn slot_reply<T>(code: i64) -> Result<SlotObject<T>> {
    match reply_u32(code) {
        Ok(no) => Ok(SlotObject::<T>::spec_wrap(no)),
        Err(e) => Err(e),
    }
}

impl<T> SlotObject<T> {
    /// The slot number this handle names.
    pub closed spec fn spec_no(&self) -> u32 {
        self.no
    }

    /// The handle on slot `no`.
    pub closed spec fn spec_wrap(no: u32) -> SlotObject<T> {
        SlotObject { no, _t: PhantomData }
    }

    /// A handle's number identifies it.
    pub proof fn lemma_wrap_no(no: u32)
        ensures
            Self::spec_wrap(no).spec_no() == no,
    {
    }

    fn wrap(no: u32) -> (o: SlotObject<T>)
        ensures
            o == Self::spec_wrap(no),
    {
        SlotObject { no, _t: PhantomData }
    }

    fn wrap_reply(code: i64) -> (r: Result<SlotObject<T>>)
        ensures
            r == slot_reply::<T>(code),
    {
        match res_u32(code) {
            Ok(no) => Ok(Self::wrap(no)),
            Err(e) => Err(e),
        }
    }

    /// The slot number, to hand to the host calls this handle's operations
    /// stand for.
    pub fn slot_no(&self) -> (no: u32)
        ensures
            no == self.spec_no(),
    {
        self.no
    }

    /// The slot's serialized size, from the host's `slot_size` answer.
    ///
    /// # Errors
    ///
    /// The host's error for a negative answer.
    pub fn size(&self, slot_size: i64) -> (r: Result<u32>)
        ensures
            r == reply_u32(slot_size),
    {
        res_u32(slot_size)
    }

    /// The field code of what the slot holds, from the host's
    /// `slot_type(no, 0)` answer.
    ///
    /// # Errors
    ///
    /// The host's error for a negative answer.
    pub fn field_code(&self, slot_type: i64) -> (r: Result<SField<Opaque>>)
        ensures
            match reply_u32(slot_type) {
                Ok(c) => r is Ok && r->Ok_0.spec_code() == c,
                Err(e) => r is Err && r->Err_0 == e,
            },
    {
        match res_u32(slot_type) {
            Ok(c) => Ok(SField::new(c)),
            Err(e) => Err(e),
        }
    }

    /// The child slot `key` navigates to, from the host's answer to
    /// `key.request()` (`slot_subfield` or `slot_subarray` on this slot).
    ///
    /// # Errors
    ///
    /// The host's error for a negative answer.
    pub fn get<K: SlotKey<T>>(&self, key: K, derived: i64) -> (r: Result<SlotObject<K::Out>>)
        ensures
            r == slot_reply::<K::Out>(derived),
    {
        SlotObject::<K::Out>::wrap_reply(derived)
    }

    /// The child slot in field `field`, or `None` when the host answered
    /// that the field does not exist.
    ///
    /// # Errors
    ///
    /// The host's error for any other negative answer.
    pub fn get_opt<U>(&self, field: SField<U>, derived: i64) -> (r: Result<Option<SlotObject<U>>>)
        where SField<U>: SlotKey<T>,
        ensures
            derived == crate::codes::DOESNT_EXIST ==> r == Ok::<Option<SlotObject<U>>, HookError>(None),
            derived != crate::codes::DOESNT_EXIST ==> r == (match slot_reply::<U>(derived) {
                Ok(o) => Ok(Some(o)),
                Err(e) => Err(e),
            }),
    {
        if derived == crate::codes::DOESNT_EXIST {
            return Ok(None);
        }
        match SlotObject::<U>::wrap_reply(derived) {
            Ok(o) => Ok(Some(o)),
            Err(e) => Err(e),
        }
    }

    /// Releases the slot, given the host's `slot_clear` answer.
    ///
    /// # Errors
    ///
    /// The host's error for a negative answer.
    pub fn clear(self, slot_clear: i64) -> (r: Result<()>)
        ensures
            slot_clear < 0 ==> r == Err::<(), HookError>(HookError::of(slot_clear)),
            slot_clear >= 0 ==> r is Ok,
    {
        match res_usize(slot_clear) {
            Ok(_) => Ok(()),
            Err(e) => Err(e),
        }
    }

    /// The number of bytes the host's `slot` call serialized the slot into.
    ///
    /// # Errors
    ///
    /// The host's error for a negative answer.
    pub fn raw(self, slot: i64) -> (r: Result<usize>)
        ensures
            r == reply_usize(slot),
    {
        res_usize(slot)
    }

    /// As [`SlotObject::raw`]; the caller then releases the slot whatever
    /// the answer was.
    ///
    /// # Errors
    ///
    /// The host's error for a negative answer.
    pub fn take_raw(self, slot: i64) -> (r: Result<usize>)
        ensures
            r == reply_usize(slot),
    {
        res_usize(slot)
    }

    /// The slot's serialized bytes, which must be exactly `N`: `slot` is the
    /// host's answer and `buf` the `N`-byte buffer it wrote.
    ///
    /// # Errors
    ///
    /// The host's error, or [`HookError::TooSmall`] for any other count.
    pub fn raw_exact<const N: usize>(self, slot: i64, buf: &[u8]) -> (r: Result<[u8; N]>)
        requires
            buf@.len() == N,
        ensures
            r == exact_read(reply_usize(slot), N as nat, array_of::<N>(buf@)),
    {
        read_exact_bytes(slot, buf)
    }

    /// As [`SlotObject::raw_exact`]; the caller then releases the slot
    /// whatever the answer was.
    ///
    /// # Errors
    ///
    /// As [`SlotObject::raw_exact`].
    pub fn take_raw_exact<const N: usize>(self, slot: i64, buf: &[u8]) -> (r: Result<[u8; N]>)
        requires
            buf@.len() == N,
        ensures
            r == exact_read(reply_usize(slot), N as nat, array_of::<N>(buf@)),
    {
        read_exact_bytes(slot, buf)
    }

    /// The same slot, checked to hold a `U`, given the host's
    /// `slot_type(no, 0)` answer: accepted when the type ID (the answer's
    /// high half) is one `U` accepts. On an `Err` the caller releases the
    /// slot.
    ///
    /// # Errors
    ///
    /// The host's error, or [`HookError::NotAnObject`] for a type `U` does
    /// not accept.
    pub fn try_cast<U: CastTarget>(self, slot_type: i64) -> (r: Result<SlotObject<U>>)
        ensures
            match reply_u32(slot_type) {
                Err(e) => r == Err::<SlotObject<U>, HookError>(e),
                Ok(code) => if U::accepts_spec(code / 65536) {
                    r == Ok::<SlotObject<U>, HookError>(SlotObject::<U>::spec_wrap(self.spec_no()))
                } else {
                    r == Err::<SlotObject<U>, HookError>(HookError::NotAnObject)
                },
            },
    {
        let no = self.no;
        match res_u32(slot_type) {
            Ok(code) => {
                if U::accepts(code / 65536) {
                    Ok(SlotObject::<U>::wrap(no))
                } else {
                    Err(HookError::NotAnObject)
                }
            },
            Err(e) => Err(e),
        }
    }

    /// The same slot, declared to hold a `U` without checking.
    pub fn assume_type<U>(self) -> (o: SlotObject<U>)
        ensures
            o.spec_no() == self.spec_no(),
    {
        SlotObject { no: self.no, _t: PhantomData }
    }
}

/// Exactly `N` bytes read from a slot.
fn read_exact_bytes<const N: usize>(slot: i64, buf: &[u8]) -> (r: Result<[u8; N]>)
    requires
        buf@.len() == N,
    ensures
        r == exact_read(reply_usize(slot), N as nat, array_of::<N>(buf@)),
{
    let n = res_usize(slot)?;
    if n != N {
        return Err(HookError::TooSmall);
    }
    Ok(exact_array(buf))
}

impl SlotObject<STObject> {
    /// The slot the host's `slot_set` answer names, for a keylet.
    ///
    /// # Errors
    ///
    /// The host's error for a negative answer.
    pub fn from_keylet(slot_set: i64) -> (r: Result<SlotObject<STObject>>)
        ensures
            r == slot_reply::<STObject>(slot_set),
    {
        Self::wrap_reply(slot_set)
    }

    /// The slot the host's `slot_set` answer names, for a transaction hash.
    ///
    /// # Errors
    ///
    /// The host's error for a negative answer.
    pub fn from_txn_hash(slot_set: i64) -> (r: Result<SlotObject<STObject>>)
        ensures
            r == slot_reply::<STObject>(slot_set),
    {
        Self::wrap_reply(slot_set)
    }

    /// The slot the host's `otxn_slot` answer names.
    ///
    /// # Errors
    ///
    /// The host's error for a negative answer.
    pub fn from_otxn(otxn_slot: i64) -> (r: Result<SlotObject<STObject>>)
        ensures
            r == slot_reply::<STObject>(otxn_slot),
    {
        Self::wrap_reply(otxn_slot)
    }

    /// The slot the host's `meta_slot` answer names.
    ///
    /// # Errors
    ///
    /// The host's error for a negative answer.
    pub fn from_meta(meta_slot: i64) -> (r: Result<SlotObject<STObject>>)
        ensures
            r == slot_reply::<STObject>(meta_slot),
    {
        Self::wrap_reply(meta_slot)
    }
}

impl SlotObject<STArray> {
    /// The array's element count, from the host's `slot_count` answer.
    ///
    /// # Errors
    ///
    /// The host's error for a negative answer.
    pub fn count(&self, slot_count: i64) -> (r: Result<u32>)
        ensures
            r == reply_u32(slot_count),
    {
        res_u32(slot_count)
    }
}

impl SlotObject<Opaque> {
    /// The element count, from the host's `slot_count` answer.
    ///
    /// # Errors
    ///
    /// The host's error for a negative answer.
    pub fn count(&self, slot_count: i64) -> (r: Result<u32>)
        ensures
            r == reply_u32(slot_count),
    {
        res_u32(slot_count)
    }

    /// Whether the slot holds a native amount, from the host's
    /// `slot_type(no, 1)` answer (`1` for native).
    ///
    /// # Errors
    ///
    /// The host's error for a negative answer.
    pub fn is_native(&self, slot_type: i64) -> (r: Result<bool>)
        ensures
            match reply_u32(slot_type) {
                Ok(v) => r == Ok::<bool, HookError>(v == 1),
                Err(e) => r == Err::<bool, HookError>(e),
            },
    {
        match res_u32(slot_type) {
            Ok(v) => Ok(v == 1),
            Err(e) => Err(e),
        }
    }
}

impl SlotObject<Amount> {
    /// Whether the amount is native, from the host's `slot_type(no, 1)`
    /// answer (`1` for native).
    ///
    /// # Errors
    ///
    /// The host's error for a negative answer.
    pub fn is_native(&self, slot_type: i64) -> (r: Result<bool>)
        ensures
            match reply_u32(slot_type) {
                Ok(v) => r == Ok::<bool, HookError>(v == 1),
                Err(e) => r == Err::<bool, HookError>(e),
            },
    {
        match res_u32(slot_type) {
            Ok(v) => Ok(v == 1),
            Err(e) => Err(e),
        }
    }

    /// The amount as an [`XFL`], from the host's `slot_float` answer.
    ///
    /// # Errors
    ///
    /// The host's error for a negative answer.
    pub fn as_xfl(self, slot_float: i64) -> (r: Result<XFL>)
        ensures
            slot_float < 0 ==> r == Err::<XFL, HookError>(HookError::of(slot_float)),
            slot_float >= 0 ==> r == Ok::<XFL, HookError>(XFL(slot_float)),
    {
        match crate::error::res(slot_float) {
            Ok(v) => Ok(XFL::from_raw_bits(v)),
            Err(e) => Err(e),
        }
    }

    /// As [`SlotObject::as_xfl`]; the caller then releases the slot whatever
    /// the answer was.
    ///
    /// # Errors
    ///
    /// The host's error for a negative answer.
    pub fn take_xfl(self, slot_float: i64) -> (r: Result<XFL>)
        ensures
            slot_float < 0 ==> r == Err::<XFL, HookError>(HookError::of(slot_float)),
            slot_float >= 0 ==> r == Ok::<XFL, HookError>(XFL(slot_float)),
    {
        self.as_xfl(slot_float)
    }

    /// The amount's serialized bytes, classified: `slot` is the host's
    /// answer and `buf` the 48-byte buffer it wrote.
    ///
    /// # Errors
    ///
    /// The host's error, [`HookError::TooBig`] for a count beyond the
    /// buffer, or [`HookError::ParseError`] for a length that is no amount.
    pub fn value(self, slot: i64, buf: &[u8]) -> (r: Result<AmountBytes>)
        requires
            buf@.len() == crate::types::IOU_AMOUNT_LEN,
        ensures
            r == (match read_prefix(slot, buf@) {
                Ok(s) => amount_of(s),
                Err(e) => Err(e),
            }),
    {
        let bytes = written_prefix(slot, buf)?;
        classify_amount(bytes)
    }

    /// As [`SlotObject::value`]; the caller then releases the slot whatever
    /// the answer was.
    ///
    /// # Errors
    ///
    /// As [`SlotObject::value`].
    pub fn take_value(self, slot: i64, buf: &[u8]) -> (r: Result<AmountBytes>)
        requires
            buf@.len() == crate::types::IOU_AMOUNT_LEN,
        ensures
            r == (match read_prefix(slot, buf@) {
                Ok(s) => amount_of(s),
                Err(e) => Err(e),
            }),
    {
        self.value(slot, buf)
    }
}

impl SlotObject<Issue> {
    /// The issue's serialized bytes, classified: `slot` is the host's answer
    /// and `buf` the [`ISSUE_MAX_READ_LEN`]-byte buffer it wrote.
    ///
    /// # Errors
    ///
    /// The host's error, [`HookError::TooBig`] for a count beyond the
    /// buffer, or [`HookError::ParseError`] for a length that is no issue.
    pub fn value(self, slot: i64, buf: &[u8]) -> (r: Result<IssueData>)
        requires
            buf@.len() == ISSUE_MAX_READ_LEN,
        ensures
            r == (match read_prefix(slot, buf@) {
                Ok(s) => issue_of(s),
                Err(e) => Err(e),
            }),
    {
        let bytes = written_prefix(slot, buf)?;
        classify_issue(bytes)
    }

    /// As [`SlotObject::value`]; the caller then releases the slot whatever
    /// the answer was.
    ///
    /// # Errors
    ///
    /// As [`SlotObject::value`].
    pub fn take_value(self, slot: i64, buf: &[u8]) -> (r: Result<IssueData>)
        requires
            buf@.len() == ISSUE_MAX_READ_LEN,
        ensures
            r == (match read_prefix(slot, buf@) {
                Ok(s) => issue_of(s),
                Err(e) => Err(e),
            }),
    {
        self.value(slot, buf)
    }
}

/// What a small-integer read gives from the host's as-int64 `slot` answer:
/// the host's error, the value when it fits in `max`, and
/// [`HookError::TooBig`] otherwise.
pub open spec fn small_int_reply(slot: i64, max: u64) -> Result<u64> {
    match reply_u64(slot) {
        Err(e) => Err(e),
        Ok(v) => if v <= max {
            Ok(v)
        } else {
            Err(HookError::TooBig)
        },
    }
}

/// An as-int64 integer read is the host's answer itself when it is at most
/// `max`, [`HookError::TooBig`] above, and the host's error when negative.
pub proof fn lemma_small_int_reply(slot: i64, max: u64)
    ensures
        0 <= slot <= max ==> small_int_reply(slot, max) == Ok::<u64, HookError>(slot as u64),
        0 <= slot && max < slot ==> small_int_reply(slot, max) == Err::<u64, HookError>(
            HookError::TooBig,
        ),
        slot < 0 ==> small_int_reply(slot, max) == Err::<u64, HookError>(HookError::of(slot)),
{
}

impl SlotObject<u8> {
    /// The `u8` the slot holds, from the host's as-int64 `slot` answer.
    ///
    /// # Errors
    ///
    /// The host's error, or [`HookError::TooBig`] for a value beyond `u8`.
    pub fn value(self, slot: i64) -> (r: Result<u8>)
        ensures
            match small_int_reply(slot, 0xFF) {
                Ok(v) => r == Ok::<u8, HookError>(v as u8),
                Err(e) => r == Err::<u8, HookError>(e),
            },
    {
        let v = res_u64(slot)?;
        if v > 0xFF {
            return Err(HookError::TooBig);
        }
        Ok(v as u8)
    }

    /// As [`SlotObject::value`]; the caller then releases the slot.
    ///
    /// # Errors
    ///
    /// As [`SlotObject::value`].
    pub fn take_value(self, slot: i64) -> (r: Result<u8>)
        ensures
            match small_int_reply(slot, 0xFF) {
                Ok(v) => r == Ok::<u8, HookError>(v as u8),
                Err(e) => r == Err::<u8, HookError>(e),
            },
    {
        self.value(slot)
    }
}

impl SlotObject<u16> {
    /// The `u16` the slot holds, from the host's as-int64 `slot` answer.
    ///
    /// # Errors
    ///
    /// The host's error, or [`HookError::TooBig`] for a value beyond `u16`.
    pub fn value(self, slot: i64) -> (r: Result<u16>)
        ensures
            match small_int_reply(slot, 0xFFFF) {
                Ok(v) => r == Ok::<u16, HookError>(v as u16),
                Err(e) => r == Err::<u16, HookError>(e),
            },
    {
        let v = res_u64(slot)?;
        if v > 0xFFFF {
            return Err(HookError::TooBig);
        }
        Ok(v as u16)
    }

    /// As [`SlotObject::value`]; the caller then releases the slot.
    ///
    /// # Errors
    ///
    /// As [`SlotObject::value`].
    pub fn take_value(self, slot: i64) -> (r: Result<u16>)
        ensures
            match small_int_reply(slot, 0xFFFF) {
                Ok(v) => r == Ok::<u16, HookError>(v as u16),
                Err(e) => r == Err::<u16, HookError>(e),
            },
    {
        self.value(slot)
    }
}

impl SlotObject<u32> {
    /// The `u32` the slot holds, from the host's as-int64 `slot` answer.
    ///
    /// # Errors
    ///
    /// The host's error, or [`HookError::TooBig`] for a value beyond `u32`.
    pub fn value(self, slot: i64) -> (r: Result<u32>)
        ensures
            match small_int_reply(slot, 0xFFFF_FFFF) {
                Ok(v) => r == Ok::<u32, HookError>(v as u32),
                Err(e) => r == Err::<u32, HookError>(e),
            },
    {
        let v = res_u64(slot)?;
        if v > 0xFFFF_FFFF {
            return Err(HookError::TooBig);
        }
        Ok(v as u32)
    }

    /// As [`SlotObject::value`]; the caller then releases the slot.
    ///
    /// # Errors
    ///
    /// As [`SlotObject::value`].
    pub fn take_value(self, slot: i64) -> (r: Result<u32>)
        ensures
            match small_int_reply(slot, 0xFFFF_FFFF) {
                Ok(v) => r == Ok::<u32, HookError>(v as u32),
                Err(e) => r == Err::<u32, HookError>(e),
            },
    {
        self.value(slot)
    }
}

impl SlotObject<u64> {
    /// The `u64` the slot holds, read as exactly 8 big-endian bytes: `slot`
    /// is the host's answer and `buf` the 8-byte buffer it wrote.
    ///
    /// # Errors
    ///
    /// The host's error, or [`HookError::TooSmall`] for any other count.
    pub fn value(self, slot: i64, buf: &[u8]) -> (r: Result<u64>)
        requires
            buf@.len() == 8,
        ensures
            r == exact_read(reply_usize(slot), 8, u64_of_be(buf@)),
            slot == 8 ==> (r matches Ok(v) && v as int == be_value8(buf@)),
    {
        proof {
            lemma_u64_of_be_value(buf@);
        }
        let n = res_usize(slot)?;
        if n != 8 {
            return Err(HookError::TooSmall);
        }
        Ok(u64_from_be(buf))
    }

    /// As [`SlotObject::value`]; the caller then releases the slot.
    ///
    /// # Errors
    ///
    /// As [`SlotObject::value`].
    pub fn take_value(self, slot: i64, buf: &[u8]) -> (r: Result<u64>)
        requires
            buf@.len() == 8,
        ensures
            r == exact_read(reply_usize(slot), 8, u64_of_be(buf@)),
            slot == 8 ==> (r matches Ok(v) && v as int == be_value8(buf@)),
    {
        self.value(slot, buf)
    }
}

impl SlotObject<crate::types::Hash> {
    /// The hash the slot holds, read as exactly 32 bytes.
    ///
    /// # Errors
    ///
    /// The host's error, or [`HookError::TooSmall`] for any other count.
    pub fn value(self, slot: i64, buf: &[u8]) -> (r: Result<crate::types::Hash>)
        requires
            buf@.len() == 32,
        ensures
            r == exact_read(reply_usize(slot), 32, crate::types::Hash(array_of(buf@))),
    {
        let b: [u8; 32] = read_exact_bytes(slot, buf)?;
        Ok(crate::types::Hash(b))
    }

    /// As [`SlotObject::value`]; the caller then releases the slot.
    ///
    /// # Errors
    ///
    /// As [`SlotObject::value`].
    pub fn take_value(self, slot: i64, buf: &[u8]) -> (r: Result<crate::types::Hash>)
        requires
            buf@.len() == 32,
        ensures
            r == exact_read(reply_usize(slot), 32, crate::types::Hash(array_of(buf@))),
    {
        self.value(slot, buf)
    }
}

impl SlotObject<AccountId> {
    /// The account the slot holds, read as exactly 20 bytes.
    ///
    /// # Errors
    ///
    /// The host's error, or [`HookError::TooSmall`] for any other count.
    pub fn value(self, slot: i64, buf: &[u8]) -> (r: Result<AccountId>)
        requires
            buf@.len() == 20,
        ensures
            r == exact_read(reply_usize(slot), 20, AccountId(array_of(buf@))),
    {
        let b: [u8; 20] = read_exact_bytes(slot, buf)?;
        Ok(AccountId(b))
    }

    /// As [`SlotObject::value`]; the caller then releases the slot.
    ///
    /// # Errors
    ///
    /// As [`SlotObject::value`].
    pub fn take_value(self, slot: i64, buf: &[u8]) -> (r: Result<AccountId>)
        requires
            buf@.len() == 20,
        ensures
            r == exact_read(reply_usize(slot), 20, AccountId(array_of(buf@))),
    {
        self.value(slot, buf)
    }
}

impl SlotObject<CurrencyCode> {
    /// The currency code the slot holds, read as exactly 20 bytes.
    ///
    /// # Errors
    ///
    /// The host's error, or [`HookError::TooSmall`] for any other count.
    pub fn value(self, slot: i64, buf: &[u8]) -> (r: Result<CurrencyCode>)
        requires
            buf@.len() == 20,
        ensures
            r == exact_read(reply_usize(slot), 20, CurrencyCode(array_of(buf@))),
    {
        let b: [u8; 20] = read_exact_bytes(slot, buf)?;
        Ok(CurrencyCode(b))
    }

    /// As [`SlotObject::value`]; the caller then releases the slot.
    ///
    /// # Errors
    ///
    /// As [`SlotObject::value`].
    pub fn take_value(self, slot: i64, buf: &[u8]) -> (r: Result<CurrencyCode>)
        requires
            buf@.len() == 20,
        ensures
            r == exact_read(reply_usize(slot), 20, CurrencyCode(array_of(buf@))),
    {
        self.value(slot, buf)
    }
}

} // verus!
