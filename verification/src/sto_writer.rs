//! [`StoWriter`]: a bounded writer for a runtime-sized serialized object
//! (`STObject`/`STArray`), typically a transaction to emit.
//!
//! Fields are written in exactly the order the caller writes them; the
//! writer checks every write against the buffer's bounds, matches
//! `begin_*`/`end_*` pairs, allows only objects directly inside an array,
//! bounds nesting by [`STO_WRITER_MAX_DEPTH`], rejects a second write of any
//! of the six emit-plumbing fields, and refuses every write once
//! [`StoWriter::prepare_for_emit`] has finalized it. Every method is
//! all-or-nothing: an `Err` leaves the writer exactly as it was.

use vstd::prelude::*;
use crate::bytes::{be_u16, be_u32, u16_to_be, u32_to_be};
use crate::codec::{
    field_header, header_bytes, header_len, native_amount_bytes, encode_native_amount,
    vl_length_prefix, vl_prefix, MAX_VL_LEN,
};
use crate::error::{res, HookError, Result};
use crate::sfield::{
    sfAccount, sfFee, sfFirstLedgerSequence, sfLastLedgerSequence, sfSequence, sfSigningPubKey,
    ARRAY_END_MARKER, OBJECT_END_MARKER,
};
use crate::types::{AccountId, ACC_ID_LEN, EMIT_DETAILS_MAX_LEN, IOU_AMOUNT_LEN};

verus! {

/// Maximum nesting: the top-level object plus up to nine open containers.
pub const STO_WRITER_MAX_DEPTH: usize = 10;

/// The kind of an open container.
#[derive(Debug, Clone, Copy, PartialEq, Eq, Structural)]
pub enum FrameKind {
    /// An `STObject`.
    Object,
    /// An `STArray`.
    Array,
}

/// `s` with `bytes` written over it starting at `off`.
pub open spec fn patch(s: Seq<u8>, off: int, bytes: Seq<u8>) -> Seq<u8> {
    s.subrange(0, off) + bytes + s.subrange(off + bytes.len(), s.len() as int)
}

/// The one-byte VL length followed by the account's 20 bytes: an account
/// field's payload.
pub open spec fn account_payload(id: Seq<u8>) -> Seq<u8> {
    seq![20u8] + id
}

/// The byte that closes a container of `kind`: `ObjectEndMarker` (`0xE1`)
/// or `ArrayEndMarker` (`0xF1`).
pub open spec fn end_marker(kind: FrameKind) -> u8 {
    match kind {
        FrameKind::Object => 0xE1u8,
        FrameKind::Array => 0xF1u8,
    }
}

/// Writes `src` into `buf` at `at`.
fn copy_at(buf: &mut Vec<u8>, at: usize, src: &[u8])
    requires
        at + src@.len() <= old(buf)@.len(),
    ensures
        final(buf)@ == patch(old(buf)@, at as int, src@),
{
    let n = src.len();
    let cap = buf.len();
    let mut i: usize = 0;
    while i < n
        invariant
            n == src@.len(),
            cap == buf@.len(),
            at + n <= buf@.len(),
            buf@.len() == old(buf)@.len(),
            buf@ == patch(old(buf)@, at as int, src@.subrange(0, i as int)),
            i <= n,
        decreases n - i,
    {
        let ghost before = buf@;
        buf.set(at + i, src[i]);
        proof {
            assert(src@.subrange(0, i + 1) =~= src@.subrange(0, i as int).push(src@[i as int]));
            assert(buf@ =~= patch(old(buf)@, at as int, src@.subrange(0, i + 1)));
        }
        i = i + 1;
    }
    proof {
        assert(src@.subrange(0, n as int) =~= src@);
    }
}

/// The emit details the host's `etxn_details` answer `details_code`
/// reports in `details`: its first `details_code` bytes, or nothing for a
/// failed answer or one beyond the region.
pub open spec fn reported_details(details_code: i64, details: Seq<u8>) -> Seq<u8> {
    if 0 <= details_code <= details.len() {
        details.subrange(0, details_code as int)
    } else {
        Seq::<u8>::empty()
    }
}

/// `a`, then `b`, then the first `n` bytes of `c`, as one vector.
pub(crate) fn concat_prefix(a: &[u8], b: &[u8], c: &[u8], n: usize) -> (out: Vec<u8>)
    requires
        n <= c@.len(),
    ensures
        out@ == a@ + b@ + c@.subrange(0, n as int),
{
    let mut out: Vec<u8> = Vec::new();
    let mut i: usize = 0;
    while i < a.len()
        invariant
            i <= a@.len(),
            out@ == a@.subrange(0, i as int),
        decreases a@.len() - i,
    {
        out.push(a[i]);
        assert(a@.subrange(0, i + 1) =~= a@.subrange(0, i as int).push(a@[i as int]));
        i = i + 1;
    }
    assert(a@.subrange(0, a@.len() as int) =~= a@);
    let mut j: usize = 0;
    while j < b.len()
        invariant
            j <= b@.len(),
            out@ == a@ + b@.subrange(0, j as int),
        decreases b@.len() - j,
    {
        out.push(b[j]);
        assert(b@.subrange(0, j + 1) =~= b@.subrange(0, j as int).push(b@[j as int]));
        j = j + 1;
    }
    assert(b@.subrange(0, b@.len() as int) =~= b@);
    let mut k: usize = 0;
    while k < n
        invariant
            n <= c@.len(),
            k <= n,
            out@ == a@ + b@ + c@.subrange(0, k as int),
        decreases n - k,
    {
        out.push(c[k]);
        assert(c@.subrange(0, k + 1) =~= c@.subrange(0, k as int).push(c@[k as int]));
        k = k + 1;
    }
    out
}

/// How many bytes of emit details `details_code` reports within a region of
/// `len` bytes: none for a failed answer or one beyond the region.
pub(crate) fn reported_len(details_code: i64, len: usize) -> (n: usize)
    ensures
        n <= len,
        (0 <= details_code <= len) ==> n == details_code,
        !(0 <= details_code <= len) ==> n == 0,
{
    if details_code < 0 {
        0
    } else if details_code as u64 > len as u64 {
        0
    } else {
        details_code as usize
    }
}

/// A bounded writer for a serialized object, backed by a fixed buffer.
pub struct StoWriter {
    buf: Vec<u8>,
    pos: usize,
    frames: Vec<FrameKind>,
    sequence_seen: bool,
    first_ledger_sequence_off: Option<usize>,
    last_ledger_sequence_off: Option<usize>,
    fee_off: Option<usize>,
    account_off: Option<usize>,
    signing_pub_key_seen: bool,
    finalized: bool,
}

impl StoWriter {
    /// The writer's buffer size.
    pub closed spec fn capacity(&self) -> nat {
        self.buf@.len()
    }

    /// The whole backing buffer: the written bytes, then whatever it held
    /// beyond them.
    pub closed spec fn buffer(&self) -> Seq<u8> {
        self.buf@
    }

    /// The bytes written so far.
    pub closed spec fn written(&self) -> Seq<u8> {
        self.buf@.subrange(0, self.pos as int)
    }

    /// The open containers, outermost first (the top-level object is implicit).
    pub closed spec fn open_frames(&self) -> Seq<FrameKind> {
        self.frames@
    }

    /// Whether [`StoWriter::prepare_for_emit`] has finalized the writer.
    pub closed spec fn is_finalized(&self) -> bool {
        self.finalized
    }

    /// Whether `sfSequence` has been written.
    pub closed spec fn has_sequence(&self) -> bool {
        self.sequence_seen
    }

    /// Whether `sfSigningPubKey` has been written.
    pub closed spec fn has_signing_pub_key(&self) -> bool {
        self.signing_pub_key_seen
    }

    /// Where `sfFirstLedgerSequence`'s value was written, if it was.
    pub closed spec fn first_ledger_sequence_at(&self) -> Option<usize> {
        self.first_ledger_sequence_off
    }

    /// Where `sfLastLedgerSequence`'s value was written, if it was.
    pub closed spec fn last_ledger_sequence_at(&self) -> Option<usize> {
        self.last_ledger_sequence_off
    }

    /// Where `sfFee`'s value was written, if it was.
    pub closed spec fn fee_at(&self) -> Option<usize> {
        self.fee_off
    }

    /// Where `sfAccount`'s 20 account bytes were written, if they were.
    pub closed spec fn account_at(&self) -> Option<usize> {
        self.account_off
    }

    /// The writer's internal consistency: the cursor is inside the buffer,
    /// nesting is within bounds, and every recorded offset lies inside the
    /// written bytes.
    pub closed spec fn wf(&self) -> bool {
        &&& self.pos <= self.buf@.len() <= usize::MAX
        &&& self.frames@.len() < STO_WRITER_MAX_DEPTH
        &&& (self.first_ledger_sequence_off matches Some(o) ==> o + 4 <= self.pos)
        &&& (self.last_ledger_sequence_off matches Some(o) ==> o + 4 <= self.pos)
        &&& (self.fee_off matches Some(o) ==> o + 8 <= self.pos)
        &&& (self.account_off matches Some(o) ==> o + 20 <= self.pos)
    }

    /// Whether the innermost open container is an array.
    pub open spec fn in_array(&self) -> bool {
        self.open_frames().len() > 0 && self.open_frames().last() == FrameKind::Array
    }

    /// Whether a write is allowed at all: not finalized and, unless
    /// `allow_in_array`, not directly inside an array.
    pub open spec fn can_write(&self, allow_in_array: bool) -> bool {
        !self.is_finalized() && (allow_in_array || !self.in_array())
    }

    /// Whether `n` more bytes fit in the buffer.
    pub open spec fn fits(&self, n: int) -> bool {
        self.written().len() + n <= self.capacity()
    }

    /// Whether `code` is one of the six emit-plumbing fields and has
    /// already been written.
    pub open spec fn plumbing_set(&self, code: u32) -> bool {
        ||| (code == sfSequence && self.has_sequence())
        ||| (code == sfFirstLedgerSequence && self.first_ledger_sequence_at() is Some)
        ||| (code == sfLastLedgerSequence && self.last_ledger_sequence_at() is Some)
        ||| (code == sfFee && self.fee_at() is Some)
        ||| (code == sfSigningPubKey && self.has_signing_pub_key())
        ||| (code == sfAccount && self.account_at() is Some)
    }

    /// `self` and `other` agree on everything but the written bytes.
    pub open spec fn same_meta(&self, other: &StoWriter) -> bool {
        &&& self.capacity() == other.capacity()
        &&& self.open_frames() == other.open_frames()
        &&& self.is_finalized() == other.is_finalized()
        &&& self.has_sequence() == other.has_sequence()
        &&& self.has_signing_pub_key() == other.has_signing_pub_key()
        &&& self.first_ledger_sequence_at() == other.first_ledger_sequence_at()
        &&& self.last_ledger_sequence_at() == other.last_ledger_sequence_at()
        &&& self.fee_at() == other.fee_at()
        &&& self.account_at() == other.account_at()
    }

    /// The buffer beyond `self`'s written bytes is as it was in `other`.
    pub open spec fn tail_kept(&self, other: &StoWriter) -> bool {
        self.buffer().subrange(self.written().len() as int, self.capacity() as int)
            == other.buffer().subrange(self.written().len() as int, self.capacity() as int)
    }

    /// `self` is `other` with `bytes` appended and nothing else changed.
    pub open spec fn appended(&self, other: &StoWriter, bytes: Seq<u8>) -> bool {
        &&& self.wf()
        &&& self.same_meta(other)
        &&& self.written() == other.written() + bytes
        &&& self.tail_kept(other)
    }

    /// Wraps `buf` as a fresh, empty writer at the top-level object. `buf`
    /// must leave [`EMIT_DETAILS_MAX_LEN`] bytes of headroom beyond every
    /// field written for [`StoWriter::prepare_for_emit`] to succeed.
    pub fn new(buf: Vec<u8>) -> (w: StoWriter)
        ensures
            w.wf(),
            w.buffer() == buf@,
            w.capacity() == buf@.len(),
            w.written() == Seq::<u8>::empty(),
            w.open_frames() == Seq::<FrameKind>::empty(),
            !w.is_finalized(),
            !w.has_sequence(),
            !w.has_signing_pub_key(),
            w.first_ledger_sequence_at() is None,
            w.last_ledger_sequence_at() is None,
            w.fee_at() is None,
            w.account_at() is None,
    {
        let cap = buf.len();
        let w = StoWriter {
            buf,
            pos: 0,
            frames: Vec::new(),
            sequence_seen: false,
            first_ledger_sequence_off: None,
            last_ledger_sequence_off: None,
            fee_off: None,
            account_off: None,
            signing_pub_key_seen: false,
            finalized: false,
        };
        assert(w.written() =~= Seq::<u8>::empty());
        w
    }

    /// The bytes written so far.
    pub fn as_bytes(&self) -> (out: &[u8])
        requires
            self.wf(),
        ensures
            out@ == self.written(),
            out@.len() <= self.capacity(),
    {
        vstd::slice::slice_subrange(self.buf.as_slice(), 0, self.pos)
    }

    /// The number of bytes written so far.
    pub fn len(&self) -> (n: usize)
        requires
            self.wf(),
        ensures
            n == self.written().len(),
            n <= self.capacity(),
    {
        self.pos
    }

    /// Whether nothing has been written yet.
    pub fn is_empty(&self) -> (b: bool)
        requires
            self.wf(),
        ensures
            b == (self.written().len() == 0),
    {
        self.pos == 0
    }

    /// Gives back the backing buffer.
    pub fn into_inner(self) -> (buf: Vec<u8>)
        requires
            self.wf(),
        ensures
            buf@ == self.buffer(),
            buf@.len() == self.capacity(),
            buf@.subrange(0, self.written().len() as int) == self.written(),
    {
        self.buf
    }

    /// Whether `n` more bytes fit in the buffer.
    pub fn has_room(&self, n: usize) -> (b: bool)
        requires
            self.wf(),
        ensures
            b == self.fits(n as int),
    {
        self.fits_exec(n)
    }

    /// Whether the writer is in the state [`StoWriter::prepare_for_emit`]
    /// needs, so that it goes on to consult the host's answers.
    pub fn is_ready_to_prepare(&self) -> (b: bool)
        ensures
            b == self.ready_to_prepare(),
    {
        !self.finalized && self.frames.len() == 0 && self.plumbing_complete()
    }

    /// Whether exactly one array is open, nothing is finalized and every
    /// plumbing field is recorded: closing the array then leaves the writer
    /// in the state [`StoWriter::prepare_for_emit`] needs.
    pub open spec fn is_ready_once_array_closed_spec(&self) -> bool {
        &&& !self.is_finalized()
        &&& self.open_frames() == seq![FrameKind::Array]
        &&& self.first_ledger_sequence_at() is Some
        &&& self.last_ledger_sequence_at() is Some
        &&& self.fee_at() is Some
        &&& self.account_at() is Some
        &&& self.has_sequence()
        &&& self.has_signing_pub_key()
    }

    /// Whether closing the one open array would leave the writer in the
    /// state [`StoWriter::prepare_for_emit`] needs.
    pub fn is_ready_once_array_closed(&self) -> (b: bool)
        ensures
            b == self.is_ready_once_array_closed_spec(),
    {
        let one_array = self.frames.len() == 1 && self.frames[0] == FrameKind::Array;
        proof {
            if one_array {
                assert(self.frames@ =~= seq![FrameKind::Array]);
            }
        }
        !self.finalized && one_array && self.plumbing_complete()
    }

    fn plumbing_complete(&self) -> (b: bool)
        ensures
            b == (self.first_ledger_sequence_at() is Some && self.last_ledger_sequence_at() is Some
                && self.fee_at() is Some && self.account_at() is Some && self.has_sequence()
                && self.has_signing_pub_key()),
    {
        self.first_ledger_sequence_off.is_some() && self.last_ledger_sequence_off.is_some()
            && self.fee_off.is_some() && self.account_off.is_some() && self.sequence_seen
            && self.signing_pub_key_seen
    }

    /// Whether [`StoWriter::prepare_for_emit`] consults the host's
    /// `etxn_details` answer, given its `hook_account` answer: only when the
    /// writer is ready, the account answer succeeded, and the emit details
    /// fit.
    pub fn needs_details(&self, hook_account_code: i64) -> (b: bool)
        requires
            self.wf(),
        ensures
            b == (self.ready_to_prepare() && hook_account_code >= 0 && self.fits(
                EMIT_DETAILS_MAX_LEN as int,
            )),
    {
        self.is_ready_to_prepare() && hook_account_code >= 0 && self.fits_exec(EMIT_DETAILS_MAX_LEN)
    }

    /// Whether [`StoWriter::prepare_for_emit`] consults the host's
    /// `etxn_fee_base` answer: only when it consults the details answer and
    /// that answer reports emit details within the region.
    pub fn needs_fee(&self, hook_account_code: i64, details_code: i64) -> (b: bool)
        requires
            self.wf(),
        ensures
            b == (self.ready_to_prepare() && hook_account_code >= 0 && self.fits(
                EMIT_DETAILS_MAX_LEN as int,
            ) && 0 <= details_code <= EMIT_DETAILS_MAX_LEN),
    {
        self.needs_details(hook_account_code) && details_code >= 0 && details_code
            <= EMIT_DETAILS_MAX_LEN as i64
    }

    /// The bytes the host's `etxn_fee_base` is asked about before
    /// [`StoWriter::prepare_for_emit`]: the written bytes followed by the
    /// emit details the `etxn_details` answer reports.
    pub fn fee_basis(&self, details_code: i64, details: &[u8]) -> (out: Vec<u8>)
        requires
            self.wf(),
        ensures
            out@ == self.written() + reported_details(details_code, details@),
    {
        let n = reported_len(details_code, details.len());
        let none: [u8; 0] = [];
        let out = concat_prefix(self.as_bytes(), none.as_slice(), details, n);
        assert(none@ =~= Seq::<u8>::empty());
        assert(self.written() + Seq::<u8>::empty() =~= self.written());
        out
    }

    fn in_array_exec(&self) -> (b: bool)
        ensures
            b == self.in_array(),
    {
        let n = self.frames.len();
        n > 0 && self.frames[n - 1] == FrameKind::Array
    }

    fn can_write_exec(&self, allow_in_array: bool) -> (b: bool)
        ensures
            b == self.can_write(allow_in_array),
    {
        !self.finalized && (allow_in_array || !self.in_array_exec())
    }

    fn fits_exec(&self, n: usize) -> (b: bool)
        requires
            self.wf(),
        ensures
            b == self.fits(n as int),
    {
        n <= self.buf.len() - self.pos
    }

    /// Appends `data` at the cursor.
    fn append(&mut self, data: &[u8])
        requires
            old(self).wf(),
            old(self).fits(data@.len() as int),
        ensures
            final(self).appended(&*old(self), data@),
    {
        let ghost before = self.written();
        let ghost old_buf = self.buf@;
        copy_at(&mut self.buf, self.pos, data);
        self.pos = self.pos + data.len();
        proof {
            assert(self.written() =~= before + data@);
            assert(self.buf@.subrange(self.pos as int, self.buf@.len() as int) =~= old_buf.subrange(
                self.pos as int,
                self.buf@.len() as int,
            ));
        }
    }

    /// Appends field `code`'s header.
    fn append_header(&mut self, code: u32)
        requires
            old(self).wf(),
            old(self).fits(header_bytes(code).len() as int),
        ensures
            final(self).appended(&*old(self), header_bytes(code)),
    {
        let (hdr, n) = field_header(code);
        let h = vstd::slice::slice_subrange(hdr.as_slice(), 0, n);
        self.append(h);
    }

    /// Overwrites already-written bytes at `off` with `bytes`.
    fn patch_at(&mut self, off: usize, bytes: &[u8])
        requires
            old(self).wf(),
            off + bytes@.len() <= old(self).written().len(),
        ensures
            final(self).wf(),
            final(self).same_meta(&*old(self)),
            final(self).written() == patch(old(self).written(), off as int, bytes@),
            final(self).tail_kept(&*old(self)),
    {
        let ghost w = self.written();
        let ghost old_buf = self.buf@;
        copy_at(&mut self.buf, off, bytes);
        proof {
            assert(self.written() =~= patch(w, off as int, bytes@));
            assert(self.buf@.subrange(self.pos as int, self.buf@.len() as int) =~= old_buf.subrange(
                self.pos as int,
                self.buf@.len() as int,
            ));
        }
    }

    /// Appends field `code`'s header followed by `payload`, as one unit.
    fn write_field_and_payload(&mut self, code: u32, payload: &[u8]) -> (r: Result<usize>)
        requires
            old(self).wf(),
        ensures
            ({
                let ok = old(self).can_write(false)
                    && old(self).fits(header_bytes(code).len() + payload@.len() as int);
                &&& ok ==> r == Ok::<usize, HookError>(old(self).written().len() as usize)
                    && final(self).appended(&*old(self), header_bytes(code) + payload@)
                &&& !ok ==> r == Err::<usize, HookError>(HookError::InvalidArgument)
                    && *final(self) == *old(self)
            }),
    {
        if !self.can_write_exec(false) {
            return Err(HookError::InvalidArgument);
        }
        let hn = header_len(code);
        if payload.len() > self.buf.len() - self.pos || hn > self.buf.len() - self.pos - payload.len() {
            return Err(HookError::InvalidArgument);
        }
        let start = self.pos;
        let ghost w0 = self.written();
        let ghost s0 = *self;
        self.append_header(code);
        let ghost s1 = *self;
        self.append(payload);
        proof {
            assert(self.written() =~= w0 + (header_bytes(code) + payload@));
            lemma_tail_kept_trans(s0, s1, *self);
        }
        Ok(start)
    }

    fn plumbing_set_exec(&self, code: u32) -> (b: bool)
        ensures
            b == self.plumbing_set(code),
    {
        (code == sfSequence && self.sequence_seen)
            || (code == sfFirstLedgerSequence && self.first_ledger_sequence_off.is_some())
            || (code == sfLastLedgerSequence && self.last_ledger_sequence_off.is_some())
            || (code == sfFee && self.fee_off.is_some())
            || (code == sfSigningPubKey && self.signing_pub_key_seen)
            || (code == sfAccount && self.account_off.is_some())
    }

    /// Writes a `UInt16` field: its header, then `value` big-endian.
    ///
    /// # Errors
    ///
    /// [`HookError::InvalidArgument`] if the writer is finalized, the
    /// innermost open container is an array, or the field does not fit.
    pub fn u16_field(&mut self, code: u32, value: u16) -> (r: Result<()>)
        requires
            old(self).wf(),
        ensures
            ({
                let bytes = header_bytes(code) + be_u16(value);
                let ok = old(self).can_write(false) && old(self).fits(bytes.len() as int);
                &&& ok ==> r is Ok && final(self).appended(&*old(self), bytes)
                &&& !ok ==> r == Err::<(), HookError>(HookError::InvalidArgument)
                    && *final(self) == *old(self)
            }),
    {
        let b = u16_to_be(value);
        self.write_field_and_payload(code, b.as_slice())?;
        Ok(())
    }

    /// Writes a `UInt32` field: its header, then `value` big-endian.
    /// `sfSequence`, `sfFirstLedgerSequence` and `sfLastLedgerSequence` are
    /// recognized and recorded for [`StoWriter::prepare_for_emit`].
    ///
    /// # Errors
    ///
    /// [`HookError::AlreadySet`] if `code` is one of those three and was
    /// already written; otherwise as [`StoWriter::u16_field`].
    pub fn u32_field(&mut self, code: u32, value: u32) -> (r: Result<()>)
        requires
            old(self).wf(),
        ensures
            final(self).wf(),
            ({
                let bytes = header_bytes(code) + be_u32(value);
                let value_at = (old(self).written().len() + header_bytes(code).len()) as usize;
                let ok = old(self).can_write(false) && old(self).fits(bytes.len() as int);
                &&& old(self).plumbing_set(code) ==> r == Err::<(), HookError>(HookError::AlreadySet)
                    && *final(self) == *old(self)
                &&& !old(self).plumbing_set(code) && !ok ==> r == Err::<(), HookError>(
                    HookError::InvalidArgument,
                ) && *final(self) == *old(self)
                &&& !old(self).plumbing_set(code) && ok ==> {
                    &&& r is Ok
                    &&& final(self).tail_kept(&*old(self))
                    &&& final(self).written() == old(self).written() + bytes
                    &&& final(self).capacity() == old(self).capacity()
                    &&& final(self).open_frames() == old(self).open_frames()
                    &&& final(self).is_finalized() == old(self).is_finalized()
                    &&& final(self).has_signing_pub_key() == old(self).has_signing_pub_key()
                    &&& final(self).fee_at() == old(self).fee_at()
                    &&& final(self).account_at() == old(self).account_at()
                    &&& final(self).has_sequence() == (old(self).has_sequence() || code == sfSequence)
                    &&& final(self).first_ledger_sequence_at() == (if code == sfFirstLedgerSequence {
                        Some(value_at)
                    } else {
                        old(self).first_ledger_sequence_at()
                    })
                    &&& final(self).last_ledger_sequence_at() == (if code == sfLastLedgerSequence {
                        Some(value_at)
                    } else {
                        old(self).last_ledger_sequence_at()
                    })
                }
            }),
    {
        if self.plumbing_set_exec(code) {
            return Err(HookError::AlreadySet);
        }
        let b = u32_to_be(value);
        let start = self.write_field_and_payload(code, b.as_slice())?;
        let hn = header_len(code);
        assert(self.written().len() == start + hn + 4);
        if code == sfSequence {
            self.sequence_seen = true;
        } else if code == sfFirstLedgerSequence {
            self.first_ledger_sequence_off = Some(start + hn);
        } else if code == sfLastLedgerSequence {
            self.last_ledger_sequence_off = Some(start + hn);
        }
        Ok(())
    }

    /// Writes an `AccountID` field: its header, the one-byte length `20`,
    /// then the account's bytes. `sfAccount` is recognized and recorded.
    ///
    /// # Errors
    ///
    /// [`HookError::AlreadySet`] if `code` is `sfAccount` and it was already
    /// written; otherwise as [`StoWriter::u16_field`].
    pub fn account_id(&mut self, code: u32, value: &AccountId) -> (r: Result<()>)
        requires
            old(self).wf(),
        ensures
            final(self).wf(),
            ({
                let bytes = header_bytes(code) + account_payload(value.0@);
                let ok = old(self).can_write(false) && old(self).fits(bytes.len() as int);
                let id_at = (old(self).written().len() + header_bytes(code).len() + 1) as usize;
                &&& old(self).plumbing_set(code) ==> r == Err::<(), HookError>(HookError::AlreadySet)
                    && *final(self) == *old(self)
                &&& !old(self).plumbing_set(code) && !ok ==> r == Err::<(), HookError>(
                    HookError::InvalidArgument,
                ) && *final(self) == *old(self)
                &&& !old(self).plumbing_set(code) && ok ==> {
                    &&& r is Ok
                    &&& final(self).tail_kept(&*old(self))
                    &&& final(self).written() == old(self).written() + bytes
                    &&& final(self).capacity() == old(self).capacity()
                    &&& final(self).open_frames() == old(self).open_frames()
                    &&& final(self).is_finalized() == old(self).is_finalized()
                    &&& final(self).has_sequence() == old(self).has_sequence()
                    &&& final(self).has_signing_pub_key() == old(self).has_signing_pub_key()
                    &&& final(self).first_ledger_sequence_at() == old(self).first_ledger_sequence_at()
                    &&& final(self).last_ledger_sequence_at() == old(self).last_ledger_sequence_at()
                    &&& final(self).fee_at() == old(self).fee_at()
                    &&& final(self).account_at() == (if code == sfAccount {
                        Some(id_at)
                    } else {
                        old(self).account_at()
                    })
                }
            }),
    {
        if self.plumbing_set_exec(code) {
            return Err(HookError::AlreadySet);
        }
        let mut payload = [0u8; 21];
        payload[0] = 20u8;
        let mut i: usize = 0;
        while i < ACC_ID_LEN
            invariant
                i <= 20,
                payload@.len() == 21,
                payload@[0] == 20u8,
                forall|j: int| 0 <= j < i ==> payload@[j + 1] == value.0@[j],
            decreases 20 - i,
        {
            payload[i + 1] = value.0[i];
            i = i + 1;
        }
        assert(payload@ =~= account_payload(value.0@));
        let start = self.write_field_and_payload(code, payload.as_slice())?;
        if code == sfAccount {
            let hn = header_len(code);
            assert(self.written().len() == start + hn + 21);
            self.account_off = Some(start + hn + 1);
        }
        Ok(())
    }

    /// Writes a `Blob` field holding nothing (a zero length byte) — what
    /// `SigningPubKey` looks like on an emitted transaction.
    /// `sfSigningPubKey` is recognized and recorded.
    ///
    /// # Errors
    ///
    /// [`HookError::AlreadySet`] if `code` is `sfSigningPubKey` and it was
    /// already written; otherwise as [`StoWriter::u16_field`].
    pub fn empty_vl(&mut self, code: u32) -> (r: Result<()>)
        requires
            old(self).wf(),
        ensures
            final(self).wf(),
            ({
                let bytes = header_bytes(code) + seq![0u8];
                let ok = old(self).can_write(false) && old(self).fits(bytes.len() as int);
                &&& old(self).plumbing_set(code) ==> r == Err::<(), HookError>(HookError::AlreadySet)
                    && *final(self) == *old(self)
                &&& !old(self).plumbing_set(code) && !ok ==> r == Err::<(), HookError>(
                    HookError::InvalidArgument,
                ) && *final(self) == *old(self)
                &&& !old(self).plumbing_set(code) && ok ==> {
                    &&& r is Ok
                    &&& final(self).tail_kept(&*old(self))
                    &&& final(self).written() == old(self).written() + bytes
                    &&& final(self).capacity() == old(self).capacity()
                    &&& final(self).open_frames() == old(self).open_frames()
                    &&& final(self).is_finalized() == old(self).is_finalized()
                    &&& final(self).has_sequence() == old(self).has_sequence()
                    &&& final(self).first_ledger_sequence_at() == old(self).first_ledger_sequence_at()
                    &&& final(self).last_ledger_sequence_at() == old(self).last_ledger_sequence_at()
                    &&& final(self).fee_at() == old(self).fee_at()
                    &&& final(self).account_at() == old(self).account_at()
                    &&& final(self).has_signing_pub_key() == (old(self).has_signing_pub_key()
                        || code == sfSigningPubKey)
                }
            }),
    {
        if self.plumbing_set_exec(code) {
            return Err(HookError::AlreadySet);
        }
        let z = [0u8; 1];
        assert(z@ =~= seq![0u8]);
        self.write_field_and_payload(code, z.as_slice())?;
        if code == sfSigningPubKey {
            self.signing_pub_key_seen = true;
        }
        Ok(())
    }

    /// Writes a `Blob` field: its header, the VL length prefix of `value`,
    /// then `value`.
    ///
    /// # Errors
    ///
    /// [`HookError::InvalidArgument`] if the writer is finalized, the
    /// innermost open container is an array, `value` is longer than
    /// [`MAX_VL_LEN`], or the field does not fit.
    pub fn vl(&mut self, code: u32, value: &[u8]) -> (r: Result<()>)
        requires
            old(self).wf(),
        ensures
            ({
                let ok = old(self).can_write(false) && value@.len() <= MAX_VL_LEN && old(self).fits(
                    (header_bytes(code).len() + vl_prefix(value@.len() as int).len() + value@.len()) as int,
                );
                &&& ok ==> r is Ok && final(self).appended(
                    &*old(self),
                    header_bytes(code) + vl_prefix(value@.len() as int) + value@,
                )
                &&& !ok ==> r == Err::<(), HookError>(HookError::InvalidArgument)
                    && *final(self) == *old(self)
            }),
    {
        if !self.can_write_exec(false) {
            return Err(HookError::InvalidArgument);
        }
        if value.len() > MAX_VL_LEN {
            return Err(HookError::InvalidArgument);
        }
        let hn = header_len(code);
        let (prefix, pn) = vl_length_prefix(value.len());
        let room = self.buf.len() - self.pos;
        if value.len() > room || pn > room - value.len() || hn > room - value.len() - pn {
            return Err(HookError::InvalidArgument);
        }
        let ghost w0 = self.written();
        let ghost s0 = *self;
        self.append_header(code);
        let ghost s1 = *self;
        let p = vstd::slice::slice_subrange(prefix.as_slice(), 0, pn);
        self.append(p);
        let ghost s2 = *self;
        self.append(value);
        proof {
            lemma_tail_kept_trans(s0, s1, s2);
            lemma_tail_kept_trans(s0, s2, *self);
            assert(self.written() =~= w0 + (header_bytes(code) + vl_prefix(value@.len() as int)
                + value@));
        }
        Ok(())
    }

    /// Writes an `Amount` field holding a native amount of `drops`.
    /// `sfFee` is recognized and recorded.
    ///
    /// # Errors
    ///
    /// [`HookError::AlreadySet`] if `code` is `sfFee` and it was already
    /// written; otherwise [`HookError::InvalidArgument`] if `drops` does not
    /// fit in 62 bits, or as [`StoWriter::u16_field`].
    pub fn native_amount(&mut self, code: u32, drops: u64) -> (r: Result<()>)
        requires
            old(self).wf(),
        ensures
            final(self).wf(),
            ({
                let bytes = header_bytes(code) + native_amount_bytes(drops);
                let value_at = (old(self).written().len() + header_bytes(code).len()) as usize;
                let ok = drops < crate::codec::MAX_NATIVE_DROPS && old(self).can_write(false)
                    && old(self).fits(bytes.len() as int);
                &&& old(self).plumbing_set(code) ==> r == Err::<(), HookError>(HookError::AlreadySet)
                    && *final(self) == *old(self)
                &&& !old(self).plumbing_set(code) && !ok ==> r == Err::<(), HookError>(
                    HookError::InvalidArgument,
                ) && *final(self) == *old(self)
                &&& !old(self).plumbing_set(code) && ok ==> {
                    &&& r is Ok
                    &&& final(self).tail_kept(&*old(self))
                    &&& final(self).written() == old(self).written() + bytes
                    &&& final(self).capacity() == old(self).capacity()
                    &&& final(self).open_frames() == old(self).open_frames()
                    &&& final(self).is_finalized() == old(self).is_finalized()
                    &&& final(self).has_sequence() == old(self).has_sequence()
                    &&& final(self).has_signing_pub_key() == old(self).has_signing_pub_key()
                    &&& final(self).first_ledger_sequence_at() == old(self).first_ledger_sequence_at()
                    &&& final(self).last_ledger_sequence_at() == old(self).last_ledger_sequence_at()
                    &&& final(self).account_at() == old(self).account_at()
                    &&& final(self).fee_at() == (if code == sfFee {
                        Some(value_at)
                    } else {
                        old(self).fee_at()
                    })
                }
            }),
    {
        if self.plumbing_set_exec(code) {
            return Err(HookError::AlreadySet);
        }
        let encoded = encode_native_amount(drops)?;
        let start = self.write_field_and_payload(code, encoded.as_slice())?;
        if code == sfFee {
            let hn = header_len(code);
            assert(self.written().len() == start + hn + 8);
            self.fee_off = Some(start + hn);
        }
        Ok(())
    }

    /// The buffer size the host's `float_sto` must be handed for an issued
    /// amount in field `code`: the field header plus the 48-byte amount.
    pub fn iou_amount_region_len(code: u32) -> (n: usize)
        ensures
            n == header_bytes(code).len() + IOU_AMOUNT_LEN,
    {
        header_len(code) + IOU_AMOUNT_LEN
    }

    /// Writes an `Amount` field holding an issued amount, given the host's
    /// `float_sto` answer for it: `float_sto` is its return code and
    /// `encoded` the [`StoWriter::iou_amount_region_len`]-byte buffer it
    /// wrote the whole field (header included) into. The reported length is
    /// what gets committed.
    ///
    /// # Errors
    ///
    /// [`HookError::AlreadySet`] if `code` is one of the six plumbing
    /// fields and was already written;
    /// [`HookError::InvalidArgument`] if the writer is finalized, the
    /// innermost open container is an array, or the region does not fit;
    /// then the host's own error if `float_sto` is negative;
    /// [`HookError::InvalidArgument`] again if the reported length exceeds
    /// the region. The host writes at most the buffer it is handed, so such
    /// a length did not come from it, and committing it would take in bytes
    /// it never wrote.
    pub fn iou_amount(&mut self, code: u32, float_sto: i64, encoded: &[u8]) -> (r: Result<()>)
        requires
            old(self).wf(),
            encoded@.len() == header_bytes(code).len() + IOU_AMOUNT_LEN,
        ensures
            ({
                let region = header_bytes(code).len() + IOU_AMOUNT_LEN;
                let set = old(self).plumbing_set(code);
                let ok = old(self).can_write(false) && old(self).fits(region as int);
                &&& set ==> r == Err::<(), HookError>(HookError::AlreadySet) && *final(self) == *old(self)
                &&& !set && !ok ==> r == Err::<(), HookError>(HookError::InvalidArgument)
                    && *final(self) == *old(self)
                &&& !set && ok && float_sto < 0 ==> r == Err::<(), HookError>(HookError::of(float_sto))
                    && *final(self) == *old(self)
                &&& !set && ok && float_sto > region ==> r == Err::<(), HookError>(
                    HookError::InvalidArgument,
                ) && *final(self) == *old(self)
                &&& !set && ok && 0 <= float_sto <= region ==> r is Ok && final(self).appended(
                    &*old(self),
                    encoded@.subrange(0, float_sto as int),
                )
            }),
    {
        if self.plumbing_set_exec(code) {
            return Err(HookError::AlreadySet);
        }
        if !self.can_write_exec(false) {
            return Err(HookError::InvalidArgument);
        }
        let region = Self::iou_amount_region_len(code);
        if !self.fits_exec(region) {
            return Err(HookError::InvalidArgument);
        }
        let written = res(float_sto)?;
        if written > region as i64 {
            return Err(HookError::InvalidArgument);
        }
        let n = written as usize;
        let part = vstd::slice::slice_subrange(encoded, 0, n);
        self.append(part);
        Ok(())
    }

    /// Opens a nested object field `code` (allowed directly inside an array,
    /// as the element wrapper, or inside an object).
    ///
    /// # Errors
    ///
    /// [`HookError::InvalidArgument`] if the writer is finalized, the header
    /// does not fit, or nesting would exceed [`STO_WRITER_MAX_DEPTH`].
    pub fn begin_object(&mut self, code: u32) -> (r: Result<()>)
        requires
            old(self).wf(),
        ensures
            final(self).wf(),
            old(self).begin_outcome(code, FrameKind::Object, *final(self), r),
    {
        self.begin(code, FrameKind::Object)
    }

    /// Opens a nested array field `code` (allowed only inside an object).
    ///
    /// # Errors
    ///
    /// As [`StoWriter::begin_object`], and also when the innermost open
    /// container is an array.
    pub fn begin_array(&mut self, code: u32) -> (r: Result<()>)
        requires
            old(self).wf(),
        ensures
            final(self).wf(),
            old(self).begin_outcome(code, FrameKind::Array, *final(self), r),
    {
        self.begin(code, FrameKind::Array)
    }

    /// `self` and `other` agree on capacity, finalization and every
    /// plumbing record.
    pub open spec fn same_flags(&self, other: &StoWriter) -> bool {
        &&& self.capacity() == other.capacity()
        &&& self.is_finalized() == other.is_finalized()
        &&& self.has_sequence() == other.has_sequence()
        &&& self.has_signing_pub_key() == other.has_signing_pub_key()
        &&& self.first_ledger_sequence_at() == other.first_ledger_sequence_at()
        &&& self.last_ledger_sequence_at() == other.last_ledger_sequence_at()
        &&& self.fee_at() == other.fee_at()
        &&& self.account_at() == other.account_at()
    }

    /// What opening a container of `kind` with field `code` does to `self`,
    /// ending in `after` and returning `r`: it succeeds exactly when a write
    /// is allowed (an object may stand directly inside an array, an array
    /// may not), nesting stays below [`STO_WRITER_MAX_DEPTH`] and the header
    /// fits; then the header is appended and `kind` pushed. Otherwise
    /// nothing changes.
    pub open spec fn begin_outcome(
        &self,
        code: u32,
        kind: FrameKind,
        after: StoWriter,
        r: Result<()>,
    ) -> bool {
        let ok = self.can_write(kind == FrameKind::Object) && self.open_frames().len() + 1
            < STO_WRITER_MAX_DEPTH && self.fits(header_bytes(code).len() as int);
        &&& ok ==> r is Ok && after.written() == self.written() + header_bytes(code) && after.tail_kept(self)
            && after.open_frames() == self.open_frames().push(kind) && after.same_flags(self)
        &&& !ok ==> r == Err::<(), HookError>(HookError::InvalidArgument) && after == *self
    }

    fn begin(&mut self, code: u32, kind: FrameKind) -> (r: Result<()>)
        requires
            old(self).wf(),
        ensures
            final(self).wf(),
            old(self).begin_outcome(code, kind, *final(self), r),
    {
        if !self.can_write_exec(kind == FrameKind::Object) {
            return Err(HookError::InvalidArgument);
        }
        if self.frames.len() + 1 >= STO_WRITER_MAX_DEPTH {
            return Err(HookError::InvalidArgument);
        }
        let hn = header_len(code);
        if !self.fits_exec(hn) {
            return Err(HookError::InvalidArgument);
        }
        self.append_header(code);
        self.frames.push(kind);
        Ok(())
    }

    /// Closes the innermost open object, writing the `ObjectEndMarker`.
    ///
    /// # Errors
    ///
    /// [`HookError::InvalidArgument`] if the writer is finalized, nothing is
    /// open, the innermost open container is an array, or the marker does
    /// not fit.
    pub fn end_object(&mut self) -> (r: Result<()>)
        requires
            old(self).wf(),
        ensures
            final(self).wf(),
            old(self).end_outcome(FrameKind::Object, *final(self), r),
    {
        proof {
            assert(header_bytes(OBJECT_END_MARKER) =~= seq![0xE1u8]);
        }
        self.end_container(FrameKind::Object, OBJECT_END_MARKER)
    }

    /// Closes the innermost open array, writing the `ArrayEndMarker`.
    ///
    /// # Errors
    ///
    /// As [`StoWriter::end_object`], with object and array swapped.
    pub fn end_array(&mut self) -> (r: Result<()>)
        requires
            old(self).wf(),
        ensures
            final(self).wf(),
            old(self).end_outcome(FrameKind::Array, *final(self), r),
    {
        proof {
            assert(header_bytes(ARRAY_END_MARKER) =~= seq![0xF1u8]);
        }
        self.end_container(FrameKind::Array, ARRAY_END_MARKER)
    }

    /// What closing the innermost container, expected to be of `kind`, does
    /// to `self`, ending in `after` and returning `r`: it succeeds exactly
    /// when the writer is not finalized, the innermost open container is of
    /// `kind` and the one-byte end marker fits; then the marker is appended
    /// and the container popped. Otherwise nothing changes.
    pub open spec fn end_outcome(&self, kind: FrameKind, after: StoWriter, r: Result<()>) -> bool {
        let ok = !self.is_finalized() && self.open_frames().len() > 0
            && self.open_frames().last() == kind && self.fits(1);
        &&& ok ==> r is Ok && after.written() == self.written() + seq![end_marker(kind)] && after.tail_kept(self)
            && after.open_frames() == self.open_frames().drop_last() && after.same_flags(self)
        &&& !ok ==> r == Err::<(), HookError>(HookError::InvalidArgument) && after == *self
    }

    /// Undoes closing the innermost array: `self` is `before` with that
    /// array just closed, and becomes `before` again in its written bytes,
    /// open containers and records.
    pub(crate) fn reopen_array(&mut self, Ghost(before): Ghost<StoWriter>)
        requires
            before.wf(),
            old(self).wf(),
            before.open_frames().len() > 0,
            before.open_frames().last() == FrameKind::Array,
            old(self).written() == before.written() + seq![0xF1u8],
            old(self).open_frames() == before.open_frames().drop_last(),
            old(self).same_flags(&before),
        ensures
            final(self).wf(),
            final(self).written() == before.written(),
            final(self).open_frames() == before.open_frames(),
            final(self).same_flags(&before),
    {
        assert(self.written().len() == before.written().len() + 1);
        let ghost w = self.written();
        self.pos = self.pos - 1;
        self.frames.push(FrameKind::Array);
        assert(self.written() =~= w.drop_last());
        assert(w.drop_last() =~= before.written());
        assert(self.frames@ =~= before.frames@);
    }

    fn end_container(&mut self, expected: FrameKind, marker: u32) -> (r: Result<()>)
        requires
            old(self).wf(),
            header_bytes(marker) == seq![end_marker(expected)],
        ensures
            final(self).wf(),
            old(self).end_outcome(expected, *final(self), r),
    {
        if self.finalized {
            return Err(HookError::InvalidArgument);
        }
        let n = self.frames.len();
        if n == 0 {
            return Err(HookError::InvalidArgument);
        }
        if self.frames[n - 1] != expected {
            return Err(HookError::InvalidArgument);
        }
        if !self.fits_exec(1) {
            return Err(HookError::InvalidArgument);
        }
        self.append_header(marker);
        self.frames.pop();
        Ok(())
    }

    /// Whether every container is closed and all six plumbing fields are
    /// present — the state [`StoWriter::prepare_for_emit`] needs.
    pub open spec fn ready_to_prepare(&self) -> bool {
        &&& !self.is_finalized()
        &&& self.open_frames().len() == 0
        &&& self.first_ledger_sequence_at() is Some
        &&& self.last_ledger_sequence_at() is Some
        &&& self.fee_at() is Some
        &&& self.account_at() is Some
        &&& self.has_sequence()
        &&& self.has_signing_pub_key()
    }

    /// What [`StoWriter::prepare_for_emit`] turns the written bytes into:
    /// `FirstLedgerSequence`/`LastLedgerSequence` patched to `ledger_seq + 1`
    /// and `+ 5` (wrapping), `Account` and `Fee` patched, then `details`
    /// appended.
    pub open spec fn prepared_bytes(
        &self,
        ledger_seq: u32,
        account: Seq<u8>,
        fee: u64,
        details: Seq<u8>,
    ) -> Seq<u8> {
        let fls = ledger_seq.wrapping_add(1);
        let lls = fls.wrapping_add(4);
        let w = self.written();
        let w1 = patch(w, self.first_ledger_sequence_at().unwrap() as int, be_u32(fls));
        let w2 = patch(w1, self.last_ledger_sequence_at().unwrap() as int, be_u32(lls));
        let w3 = patch(w2, self.account_at().unwrap() as int, account);
        let w4 = patch(w3, self.fee_at().unwrap() as int, native_amount_bytes(fee));
        w4 + details
    }

    /// Why [`StoWriter::prepare_for_emit`] fails for these answers, if it
    /// does: checked in order, the writer's state, the account answer, the
    /// headroom for the emit details, the details answer, and the fee answer
    /// and its range.
    pub open spec fn prepare_failure(
        &self,
        hook_account_code: i64,
        details_code: i64,
        fee_code: i64,
    ) -> Option<HookError> {
        if !self.ready_to_prepare() {
            Some(HookError::InvalidArgument)
        } else if hook_account_code < 0 {
            Some(HookError::of(hook_account_code))
        } else if !self.fits(EMIT_DETAILS_MAX_LEN as int) {
            Some(HookError::InvalidArgument)
        } else if details_code < 0 {
            Some(HookError::of(details_code))
        } else if details_code > EMIT_DETAILS_MAX_LEN {
            Some(HookError::InvalidArgument)
        } else if fee_code < 0 {
            Some(HookError::of(fee_code))
        } else if fee_code >= crate::codec::MAX_NATIVE_DROPS {
            Some(HookError::InvalidArgument)
        } else {
            None
        }
    }

    /// What [`StoWriter::prepare_for_emit`] does to `self`, ending in
    /// `after` and returning `r`: on a failure nothing changes; otherwise
    /// the written bytes become [`StoWriter::prepared_bytes`], the writer is
    /// finalized, and the blob's length is returned.
    pub open spec fn prepare_outcome(
        &self,
        ledger_seq: u32,
        hook_account_code: i64,
        hook_account: Seq<u8>,
        details_code: i64,
        details: Seq<u8>,
        fee_code: i64,
        after: StoWriter,
        r: Result<usize>,
    ) -> bool {
        match self.prepare_failure(hook_account_code, details_code, fee_code) {
            Some(e) => r == Err::<usize, HookError>(e) && after == *self,
            None => {
                &&& r == Ok::<usize, HookError>((self.written().len() + details_code) as usize)
                &&& after.written() == self.prepared_bytes(
                    ledger_seq,
                    hook_account,
                    fee_code as u64,
                    details.subrange(0, details_code as int),
                )
                &&& after.is_finalized()
                &&& after.tail_kept(self)
                &&& after.capacity() == self.capacity()
                &&& after.open_frames() == self.open_frames()
            },
        }
    }

    /// Finalizes the writer for emission, given the host's answers:
    /// `ledger_seq` (the current ledger sequence), `hook_account_code`/
    /// `hook_account` (the `hook_account` call's return code and the 20
    /// bytes it wrote), `details_code`/`details` (`etxn_details`' return
    /// code and the [`EMIT_DETAILS_MAX_LEN`]-byte region it wrote) and
    /// `fee_code` (`etxn_fee_base` over the written bytes followed by the
    /// emit details). Checks, in order: not finalized, every container
    /// closed, every plumbing field present; the account answer; headroom
    /// for the emit details; the details answer; the fee answer and its
    /// range. Only once all hold does it patch `FirstLedgerSequence`/
    /// `LastLedgerSequence`/`Account`/`Fee`, append the details, finalize,
    /// and return the blob's length. A failure changes nothing, so a retry
    /// cannot duplicate the emit details.
    ///
    /// # Errors
    ///
    /// [`HookError::InvalidArgument`] for a writer state that is not ready,
    /// too little headroom, an emit-details length beyond the region, or a
    /// fee of 62 bits or more; otherwise the host's own error for a negative
    /// account, details or fee code. An emit-details length beyond the
    /// region is refused rather than committed: the host writes at most the
    /// region it is handed, so the bytes past it were never its answer.
    #[verifier::rlimit(40)]
    pub fn prepare_for_emit(
        &mut self,
        ledger_seq: u32,
        hook_account_code: i64,
        hook_account: &AccountId,
        details_code: i64,
        details: &[u8],
        fee_code: i64,
    ) -> (r: Result<usize>)
        requires
            old(self).wf(),
            details@.len() == EMIT_DETAILS_MAX_LEN,
        ensures
            final(self).wf(),
            old(self).prepare_outcome(
                ledger_seq,
                hook_account_code,
                hook_account.0@,
                details_code,
                details@,
                fee_code,
                *final(self),
                r,
            ),
    {
        if self.finalized || self.frames.len() != 0 {
            return Err(HookError::InvalidArgument);
        }
        let (fls_off, lls_off, fee_off, account_off) = match (
            self.first_ledger_sequence_off,
            self.last_ledger_sequence_off,
            self.fee_off,
            self.account_off,
        ) {
            (Some(a), Some(b), Some(c), Some(d)) => (a, b, c, d),
            _ => {
                return Err(HookError::InvalidArgument);
            },
        };
        if !self.sequence_seen || !self.signing_pub_key_seen {
            return Err(HookError::InvalidArgument);
        }
        let fls = ledger_seq.wrapping_add(1);
        let lls = fls.wrapping_add(4);
        res(hook_account_code)?;
        if !self.fits_exec(EMIT_DETAILS_MAX_LEN) {
            return Err(HookError::InvalidArgument);
        }
        let ed_len = res(details_code)?;
        if ed_len > EMIT_DETAILS_MAX_LEN as i64 {
            return Err(HookError::InvalidArgument);
        }
        let fee = res(fee_code)?;
        let fee_bytes = encode_native_amount(fee as u64)?;
        let ghost s0 = *self;
        let fls_b = u32_to_be(fls);
        let lls_b = u32_to_be(lls);
        self.patch_at(fls_off, fls_b.as_slice());
        let ghost s1 = *self;
        self.patch_at(lls_off, lls_b.as_slice());
        let ghost s2 = *self;
        self.patch_at(account_off, hook_account.0.as_slice());
        let ghost s3 = *self;
        self.patch_at(fee_off, fee_bytes.as_slice());
        let ghost s4 = *self;
        let n = ed_len as usize;
        let part = vstd::slice::slice_subrange(details, 0, n);
        self.append(part);
        proof {
            lemma_tail_kept_trans(s0, s1, s2);
            lemma_tail_kept_trans(s0, s2, s3);
            lemma_tail_kept_trans(s0, s3, s4);
            lemma_tail_kept_trans(s0, s4, *self);
        }
        self.finalized = true;
        assert(self.written() == s0.prepared_bytes(
            ledger_seq,
            hook_account.0@,
            fee as u64,
            details@.subrange(0, details_code as int),
        ));
        Ok(self.pos)
    }
}

/// Opening a container and then closing it again, with room left for the
/// end marker, always succeeds and leaves the writer as it was but for the
/// container's header and end marker: the open containers and every
/// plumbing record are back where they were.
pub proof fn lemma_begin_end_balanced(
    w0: StoWriter,
    code: u32,
    kind: FrameKind,
    w1: StoWriter,
    r1: Result<()>,
    w2: StoWriter,
    r2: Result<()>,
)
    requires
        w0.begin_outcome(code, kind, w1, r1),
        r1 is Ok,
        w1.fits(1),
        w1.end_outcome(kind, w2, r2),
    ensures
        r2 is Ok,
        w2.open_frames() == w0.open_frames(),
        w2.written() == w0.written() + header_bytes(code) + seq![end_marker(kind)],
        w2.same_flags(&w0),
{
    assert(w1.open_frames().drop_last() =~= w0.open_frames());
}

/// Closing a container of the other kind than the one just opened is
/// refused and changes nothing.
pub proof fn lemma_mismatched_end_refused(
    w0: StoWriter,
    code: u32,
    kind: FrameKind,
    w1: StoWriter,
    r1: Result<()>,
    other: FrameKind,
    w2: StoWriter,
    r2: Result<()>,
)
    requires
        w0.begin_outcome(code, kind, w1, r1),
        r1 is Ok,
        other != kind,
        w1.end_outcome(other, w2, r2),
    ensures
        r2 == Err::<(), HookError>(HookError::InvalidArgument),
        w2 == w1,
{
}

/// With no container open, closing one is refused and changes nothing.
pub proof fn lemma_end_without_open_refused(w: StoWriter, kind: FrameKind, after: StoWriter, r: Result<()>)
    requires
        w.open_frames().len() == 0,
        w.end_outcome(kind, after, r),
    ensures
        r == Err::<(), HookError>(HookError::InvalidArgument),
        after == w,
{
}

/// Once [`StoWriter::prepare_for_emit`] has succeeded, the writer refuses
/// everything: no field may be written, no container opened or closed, and
/// a second preparation fails; each refusal leaves the writer unchanged.
pub proof fn lemma_prepared_writer_is_sealed(
    w0: StoWriter,
    ledger_seq: u32,
    hook_account_code: i64,
    hook_account: Seq<u8>,
    details_code: i64,
    details: Seq<u8>,
    fee_code: i64,
    w1: StoWriter,
    n: usize,
)
    requires
        w0.prepare_outcome(
            ledger_seq,
            hook_account_code,
            hook_account,
            details_code,
            details,
            fee_code,
            w1,
            Ok::<usize, HookError>(n),
        ),
    ensures
        !w1.can_write(true),
        !w1.can_write(false),
        forall|code: u32, kind: FrameKind, after: StoWriter, r: Result<()>|
            #[trigger] w1.begin_outcome(code, kind, after, r) ==> r == Err::<(), HookError>(
                HookError::InvalidArgument,
            ) && after == w1,
        forall|kind: FrameKind, after: StoWriter, r: Result<()>|
            #[trigger] w1.end_outcome(kind, after, r) ==> r == Err::<(), HookError>(
                HookError::InvalidArgument,
            ) && after == w1,
        forall|a: i64, d: i64, f: i64|
            #[trigger] w1.prepare_failure(a, d, f) == Some(HookError::InvalidArgument),
{
}

/// A failed [`StoWriter::prepare_for_emit`] leaves nothing behind: failing
/// once and then calling again ends exactly as that second call alone would
/// have, so the emit details are never appended twice.
pub proof fn lemma_prepare_retry(
    w0: StoWriter,
    ledger_seq1: u32,
    hook_account_code1: i64,
    hook_account1: Seq<u8>,
    details_code1: i64,
    details1: Seq<u8>,
    fee_code1: i64,
    w1: StoWriter,
    r1: Result<usize>,
    ledger_seq2: u32,
    hook_account_code2: i64,
    hook_account2: Seq<u8>,
    details_code2: i64,
    details2: Seq<u8>,
    fee_code2: i64,
    w2: StoWriter,
    r2: Result<usize>,
)
    requires
        w0.prepare_outcome(
            ledger_seq1,
            hook_account_code1,
            hook_account1,
            details_code1,
            details1,
            fee_code1,
            w1,
            r1,
        ),
        r1 is Err,
        w1.prepare_outcome(
            ledger_seq2,
            hook_account_code2,
            hook_account2,
            details_code2,
            details2,
            fee_code2,
            w2,
            r2,
        ),
    ensures
        w0.prepare_outcome(
            ledger_seq2,
            hook_account_code2,
            hook_account2,
            details_code2,
            details2,
            fee_code2,
            w2,
            r2,
        ),
{
}

/// A consistent writer's written bytes are the front of its buffer, which
/// is as long as its capacity.
pub proof fn lemma_written_is_buffer_prefix(w: StoWriter)
    requires
        w.wf(),
    ensures
        w.buffer().len() == w.capacity(),
        w.written().len() <= w.capacity(),
        w.written() == w.buffer().subrange(0, w.written().len() as int),
{
}

/// Keeping the tail is transitive over growing writes.
proof fn lemma_tail_kept_trans(a: StoWriter, b: StoWriter, c: StoWriter)
    requires
        a.capacity() == b.capacity(),
        b.capacity() == c.capacity(),
        a.buffer().len() == a.capacity(),
        b.buffer().len() == b.capacity(),
        c.buffer().len() == c.capacity(),
        b.written().len() <= c.written().len() <= c.capacity(),
        b.tail_kept(&a),
        c.tail_kept(&b),
    ensures
        c.tail_kept(&a),
{
    let n = c.written().len() as int;
    let m = b.written().len() as int;
    let cap = c.capacity() as int;
    assert(b.buffer().subrange(n, cap) =~= b.buffer().subrange(m, cap).subrange(n - m, cap - m));
    assert(a.buffer().subrange(n, cap) =~= a.buffer().subrange(m, cap).subrange(n - m, cap - m));
}

/// The host's answers [`StoWriter::prepare_for_emit`] does not consult do
/// not change its outcome: the account answer only matters to a ready
/// writer, the details answer only where [`StoWriter::needs_details`]
/// holds, and the fee answer only where [`StoWriter::needs_fee`] holds.
pub proof fn lemma_unconsulted_answers_do_not_matter(
    w: StoWriter,
    a1: i64,
    a2: i64,
    d1: i64,
    d2: i64,
    f1: i64,
    f2: i64,
)
    ensures
        !w.ready_to_prepare() ==> w.prepare_failure(a1, d1, f1) == w.prepare_failure(a2, d2, f2),
        !(w.ready_to_prepare() && a1 >= 0 && w.fits(EMIT_DETAILS_MAX_LEN as int)) ==> w.prepare_failure(
            a1,
            d1,
            f1,
        ) == w.prepare_failure(a1, d2, f2),
        !(w.ready_to_prepare() && a1 >= 0 && w.fits(EMIT_DETAILS_MAX_LEN as int) && 0 <= d1
            <= EMIT_DETAILS_MAX_LEN) ==> w.prepare_failure(a1, d1, f1) == w.prepare_failure(a1, d1, f2),
{
}

} // verus!
