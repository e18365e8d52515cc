//! [`RemitBuilder`]: an emitted `Remit` transaction with its runtime-sized
//! `sfAmounts` array, written with [`StoWriter`].
//!
//! [`RemitBuilder::new`] writes `TransactionType`, `Flags`, `Sequence`,
//! `FirstLedgerSequence`, `LastLedgerSequence`, `Fee`, `SigningPubKey`,
//! `Account` and `Destination`, in that order, then opens `Amounts`; each
//! push adds one `sfAmountEntry` object holding one `sfAmount`;
//! [`RemitBuilder::prepare_for_emit`] closes the array and finalizes the
//! writer. Failures are told apart by [`RemitError`].

use vstd::prelude::*;
use crate::bytes::{be_u16, be_u32, be_value8};
use crate::codec::{
    header_bytes, lemma_native_amount_encodes_drops, native_amount_bytes, MAX_NATIVE_DROPS,
};
use crate::error::{HookError, Result};
use crate::sfield::{
    sfAccount, sfAmount, sfAmountEntry, sfAmounts, sfDestination, sfFee, sfFirstLedgerSequence,
    sfFlags, sfLastLedgerSequence, sfSequence, sfSigningPubKey, sfTransactionType, TF_CANONICAL,
    TT_REMIT,
};
use crate::sto_writer::{
    account_payload, concat_prefix, reported_details, reported_len, FrameKind, StoWriter, STO_WRITER_MAX_DEPTH,
};
use crate::types::{AccountId, EMIT_DETAILS_MAX_LEN, IOU_AMOUNT_LEN};

verus! {

/// Why a [`RemitBuilder`] operation failed.
#[derive(Debug, Clone, Copy, PartialEq, Eq)]
pub enum RemitError {
    /// The writer refused the fixed prefix or an `sfAmountEntry` wrapper
    /// (out of room, or nesting limits).
    Capacity,
    /// A native amount of 62 bits or more.
    InvalidAmount,
    /// Writing an issued amount failed with this error.
    Encoding(HookError),
    /// Closing the array or preparing for emission failed with this error.
    Preparation(HookError),
}

/// Length of the fixed part [`RemitBuilder::new`] writes.
pub const REMIT_PREFIX_LEN: usize = 82;

/// The fixed part [`RemitBuilder::new`] writes for `destination`.
pub open spec fn remit_prefix(destination: Seq<u8>) -> Seq<u8> {
    header_bytes(sfTransactionType) + be_u16(TT_REMIT)
        + header_bytes(sfFlags) + be_u32(TF_CANONICAL)
        + header_bytes(sfSequence) + be_u32(0)
        + header_bytes(sfFirstLedgerSequence) + be_u32(0)
        + header_bytes(sfLastLedgerSequence) + be_u32(0)
        + header_bytes(sfFee) + native_amount_bytes(0)
        + header_bytes(sfSigningPubKey) + seq![0u8]
        + header_bytes(sfAccount) + account_payload(Seq::new(20, |i: int| 0u8))
        + header_bytes(sfDestination) + account_payload(destination)
        + header_bytes(sfAmounts)
}

/// One native `sfAmountEntry` object.
pub open spec fn native_entry(drops: u64) -> Seq<u8> {
    header_bytes(sfAmountEntry) + header_bytes(sfAmount) + native_amount_bytes(drops) + seq![0xE1u8]
}

/// A native `sfAmountEntry` is twelve bytes: the object header `E0 5B`, the
/// amount header `61`, the eight amount bytes (big-endian `drops` with the
/// positive bit 62 added) and the object end marker `E1`.
pub proof fn lemma_native_entry_bytes(drops: u64)
    requires
        drops < MAX_NATIVE_DROPS,
    ensures
        native_entry(drops).len() == 12,
        native_entry(drops)[0] == 0xE0u8,
        native_entry(drops)[1] == 0x5Bu8,
        native_entry(drops)[2] == 0x61u8,
        native_entry(drops)[11] == 0xE1u8,
        be_value8(native_entry(drops).subrange(3, 11)) == drops + 0x4000_0000_0000_0000,
{
    lemma_native_amount_encodes_drops(drops);
    assert(native_entry(drops).subrange(3, 11) =~= native_amount_bytes(drops));
}

/// `w1` is `w0` with its one open array closed.
pub open spec fn closed_array(w0: StoWriter, w1: StoWriter) -> bool {
    &&& w1.wf()
    &&& w1.written() == w0.written() + seq![0xF1u8]
    &&& w1.open_frames() == w0.open_frames().drop_last()
    &&& w1.same_flags(&w0)
}

/// `w1` holds what `w0` held: the same written bytes, open containers and
/// records.
pub open spec fn restored(w0: StoWriter, w1: StoWriter) -> bool {
    &&& w1.wf()
    &&& w1.written() == w0.written()
    &&& w1.open_frames() == w0.open_frames()
    &&& w1.same_flags(&w0)
}

/// A writer result with its error tagged as a preparation failure.
pub open spec fn preparation(r: Result<usize>) -> core::result::Result<usize, RemitError> {
    match r {
        Ok(n) => Ok(n),
        Err(e) => Err(RemitError::Preparation(e)),
    }
}

/// A builder for an emitted `Remit` transaction.
pub struct RemitBuilder {
    writer: StoWriter,
}

impl RemitBuilder {
    /// The underlying writer.
    pub closed spec fn writer(&self) -> StoWriter {
        self.writer
    }

    /// Whether the builder is between pushes: the writer is consistent,
    /// exactly the `Amounts` array is open, and every emit-plumbing field is
    /// recorded.
    pub open spec fn ready(&self) -> bool {
        &&& self.writer().wf()
        &&& self.writer().open_frames() == seq![FrameKind::Array]
        &&& self.writer().has_sequence()
        &&& self.writer().has_signing_pub_key()
        &&& self.writer().first_ledger_sequence_at() is Some
        &&& self.writer().last_ledger_sequence_at() is Some
        &&& self.writer().fee_at() is Some
        &&& self.writer().account_at() is Some
    }

    /// Writes the fixed prefix into `buf` and opens `Amounts`. Leave
    /// [`crate::types::EMIT_DETAILS_MAX_LEN`] bytes of headroom beyond the
    /// prefix and every amount pushed for
    /// [`RemitBuilder::prepare_for_emit`] to succeed.
    ///
    /// # Errors
    ///
    /// [`RemitError::Capacity`] exactly when `buf` is shorter than
    /// [`REMIT_PREFIX_LEN`].
    #[verifier::rlimit(60)]
    pub fn new(buf: Vec<u8>, destination: &AccountId) -> (r: core::result::Result<RemitBuilder, RemitError>)
        ensures
            r is Ok <==> buf@.len() >= REMIT_PREFIX_LEN,
            r is Err ==> r == Err::<RemitBuilder, RemitError>(RemitError::Capacity),
            r matches Ok(b) ==> {
                &&& b.ready()
                &&& !b.writer().is_finalized()
                &&& b.writer().capacity() == buf@.len()
                &&& b.writer().written() == remit_prefix(destination.0@)
                &&& b.writer().first_ledger_sequence_at() == Some(15usize)
                &&& b.writer().last_ledger_sequence_at() == Some(21usize)
                &&& b.writer().fee_at() == Some(26usize)
                &&& b.writer().account_at() == Some(38usize)
            },
    {
        let mut w = StoWriter::new(buf);
        let zero = AccountId::zeroed();
        assert(header_bytes(sfTransactionType).len() == 1);
        assert(header_bytes(sfFlags).len() == 1);
        assert(header_bytes(sfSequence).len() == 1);
        assert(header_bytes(sfFirstLedgerSequence).len() == 2);
        assert(header_bytes(sfLastLedgerSequence).len() == 2);
        assert(header_bytes(sfFee).len() == 1);
        assert(header_bytes(sfSigningPubKey).len() == 1);
        assert(header_bytes(sfAccount).len() == 1);
        assert(header_bytes(sfDestination).len() == 1);
        assert(header_bytes(sfAmounts).len() == 2);
        if w.u16_field(sfTransactionType, TT_REMIT).is_err() {
            return Err(RemitError::Capacity);
        }
        if w.u32_field(sfFlags, TF_CANONICAL).is_err() {
            return Err(RemitError::Capacity);
        }
        if w.u32_field(sfSequence, 0).is_err() {
            return Err(RemitError::Capacity);
        }
        if w.u32_field(sfFirstLedgerSequence, 0).is_err() {
            return Err(RemitError::Capacity);
        }
        if w.u32_field(sfLastLedgerSequence, 0).is_err() {
            return Err(RemitError::Capacity);
        }
        if w.native_amount(sfFee, 0).is_err() {
            return Err(RemitError::Capacity);
        }
        if w.empty_vl(sfSigningPubKey).is_err() {
            return Err(RemitError::Capacity);
        }
        if w.account_id(sfAccount, &zero).is_err() {
            return Err(RemitError::Capacity);
        }
        if w.account_id(sfDestination, destination).is_err() {
            return Err(RemitError::Capacity);
        }
        if w.begin_array(sfAmounts).is_err() {
            return Err(RemitError::Capacity);
        }
        assert(zero.0@ =~= Seq::new(20, |i: int| 0u8));
        assert(w.written() =~= remit_prefix(destination.0@));
        assert(w.open_frames() =~= seq![FrameKind::Array]);
        Ok(RemitBuilder { writer: w })
    }

    /// The bytes written so far.
    pub fn as_bytes(&self) -> (out: &[u8])
        requires
            self.writer().wf(),
        ensures
            out@ == self.writer().written(),
    {
        self.writer.as_bytes()
    }

    /// The bytes the host's `etxn_fee_base` is asked about before
    /// [`RemitBuilder::prepare_for_emit`]: what is written, the
    /// `ArrayEndMarker` that closes `Amounts`, then the emit details the
    /// `etxn_details` answer reports.
    pub fn fee_basis(&self, details_code: i64, details: &[u8]) -> (out: Vec<u8>)
        requires
            self.writer().wf(),
        ensures
            out@ == self.writer().written() + seq![0xF1u8] + reported_details(details_code, details@),
    {
        let n = reported_len(details_code, details.len());
        let marker: [u8; 1] = [0xF1u8];
        assert(marker@ =~= seq![0xF1u8]);
        concat_prefix(self.as_bytes(), marker.as_slice(), details, n)
    }


    /// Steps that succeeded before a failure stay written, as in the
    /// writer's own step-by-step use.
    ///
    /// # Errors
    ///
    /// [`RemitError::InvalidAmount`] for `drops` of 62 bits or more (nothing
    /// written); [`RemitError::Capacity`] when the entry does not fit, nests
    /// too deep, or the builder was already prepared.
    #[verifier::rlimit(40)]
    pub fn push_native_amount(&mut self, drops: u64) -> (r: core::result::Result<(), RemitError>)
        requires
            old(self).writer().wf(),
        ensures
            final(self).writer().wf(),
            final(self).writer().capacity() == old(self).writer().capacity(),
            ({
                let w0 = old(self).writer();
                let w1 = final(self).writer();
                let room = w0.capacity() - w0.written().len();
                if drops >= MAX_NATIVE_DROPS {
                    r == Err::<(), RemitError>(RemitError::InvalidAmount) && w1 == w0
                } else if w0.is_finalized() || room < 2 || w0.open_frames().len() + 1 >= STO_WRITER_MAX_DEPTH {
                    r == Err::<(), RemitError>(RemitError::Capacity) && w1 == w0
                } else if room < 11 {
                    &&& r == Err::<(), RemitError>(RemitError::Capacity)
                    &&& w1.written() == w0.written() + header_bytes(sfAmountEntry)
                    &&& w1.open_frames() == w0.open_frames().push(FrameKind::Object)
                    &&& w1.same_flags(&w0)
                } else if room < 12 {
                    &&& r == Err::<(), RemitError>(RemitError::Capacity)
                    &&& w1.written() == w0.written() + header_bytes(sfAmountEntry) + header_bytes(
                        sfAmount,
                    ) + native_amount_bytes(drops)
                    &&& w1.open_frames() == w0.open_frames().push(FrameKind::Object)
                    &&& w1.same_flags(&w0)
                } else {
                    &&& r is Ok
                    &&& w1.written() == w0.written() + native_entry(drops)
                    &&& w1.open_frames() == w0.open_frames()
                    &&& w1.same_flags(&w0)
                    &&& old(self).ready() ==> final(self).ready()
                }
            }),
    {
        if drops >= MAX_NATIVE_DROPS {
            return Err(RemitError::InvalidAmount);
        }
        assert(header_bytes(sfAmountEntry).len() == 2);
        assert(header_bytes(sfAmount).len() == 1);
        assert(header_bytes(sfAmountEntry) =~= seq![0xE0u8, 0x5Bu8]);
        let ghost w0 = self.writer;
        if self.writer.begin_object(sfAmountEntry).is_err() {
            return Err(RemitError::Capacity);
        }
        let ghost w1 = self.writer;
        if self.writer.native_amount(sfAmount, drops).is_err() {
            return Err(RemitError::Capacity);
        }
        let ghost w2 = self.writer;
        if self.writer.end_object().is_err() {
            return Err(RemitError::Capacity);
        }
        assert(self.writer.written() =~= w0.written() + native_entry(drops));
        assert(self.writer.open_frames() =~= w0.open_frames());
        Ok(())
    }

    /// Appends one `sfAmountEntry` holding an issued amount, given the
    /// host's `float_sto` answer for it: `float_sto` is its return code and
    /// `encoded` the [`StoWriter::iou_amount_region_len`]`(sfAmount)`-byte
    /// buffer it wrote the `sfAmount` field into.
    ///
    /// # Errors
    ///
    /// [`RemitError::Capacity`] when the wrapper does not fit or nests too
    /// deep, or the builder was already prepared;
    /// [`RemitError::Encoding`] with the writer's error when the amount
    /// itself cannot be written.
    #[verifier::rlimit(40)]
    pub fn push_issued_amount(&mut self, float_sto: i64, encoded: &[u8]) -> (r: core::result::Result<(), RemitError>)
        requires
            old(self).writer().wf(),
            encoded@.len() == header_bytes(sfAmount).len() + IOU_AMOUNT_LEN,
        ensures
            final(self).writer().wf(),
            final(self).writer().capacity() == old(self).writer().capacity(),
            ({
                let w0 = old(self).writer();
                let w1 = final(self).writer();
                let room = w0.capacity() - w0.written().len();
                if w0.is_finalized() || room < 2 || w0.open_frames().len() + 1 >= STO_WRITER_MAX_DEPTH {
                    r == Err::<(), RemitError>(RemitError::Capacity) && w1 == w0
                } else if room < 51 {
                    &&& r == Err::<(), RemitError>(RemitError::Encoding(HookError::InvalidArgument))
                    &&& w1.written() == w0.written() + header_bytes(sfAmountEntry)
                    &&& w1.open_frames() == w0.open_frames().push(FrameKind::Object)
                    &&& w1.same_flags(&w0)
                } else if float_sto < 0 {
                    &&& r == Err::<(), RemitError>(RemitError::Encoding(HookError::of(float_sto)))
                    &&& w1.written() == w0.written() + header_bytes(sfAmountEntry)
                    &&& w1.open_frames() == w0.open_frames().push(FrameKind::Object)
                    &&& w1.same_flags(&w0)
                } else if float_sto > 49 {
                    &&& r == Err::<(), RemitError>(RemitError::Encoding(HookError::InvalidArgument))
                    &&& w1.written() == w0.written() + header_bytes(sfAmountEntry)
                    &&& w1.open_frames() == w0.open_frames().push(FrameKind::Object)
                    &&& w1.same_flags(&w0)
                } else if room < 2 + float_sto + 1 {
                    &&& r == Err::<(), RemitError>(RemitError::Capacity)
                    &&& w1.written() == w0.written() + header_bytes(sfAmountEntry) + encoded@.subrange(
                        0,
                        float_sto as int,
                    )
                    &&& w1.open_frames() == w0.open_frames().push(FrameKind::Object)
                    &&& w1.same_flags(&w0)
                } else {
                    &&& r is Ok
                    &&& w1.written() == w0.written() + header_bytes(sfAmountEntry) + encoded@.subrange(
                        0,
                        float_sto as int,
                    ) + seq![0xE1u8]
                    &&& w1.open_frames() == w0.open_frames()
                    &&& w1.same_flags(&w0)
                    &&& old(self).ready() ==> final(self).ready()
                }
            }),
    {
        assert(header_bytes(sfAmountEntry).len() == 2);
        assert(header_bytes(sfAmount).len() == 1);
        let ghost w0 = self.writer;
        if self.writer.begin_object(sfAmountEntry).is_err() {
            return Err(RemitError::Capacity);
        }
        match self.writer.iou_amount(sfAmount, float_sto, encoded) {
            Ok(()) => {},
            Err(e) => {
                return Err(RemitError::Encoding(e));
            },
        }
        if self.writer.end_object().is_err() {
            return Err(RemitError::Capacity);
        }
        assert(self.writer.open_frames() =~= w0.open_frames());
        Ok(())
    }

    /// Whether [`RemitBuilder::prepare_for_emit`] consults the host's
    /// `hook_account` answer: only when closing `Amounts` leaves the writer
    /// ready to prepare.
    pub fn needs_account(&self) -> (b: bool)
        requires
            self.writer().wf(),
        ensures
            b == (self.writer().fits(1) && self.writer().is_ready_once_array_closed_spec()),
    {
        self.writer.has_room(1) && self.writer.is_ready_once_array_closed()
    }

    /// Whether [`RemitBuilder::prepare_for_emit`] consults the host's
    /// `etxn_details` answer: only when it consults the account answer,
    /// that answer succeeded, and the emit details fit after the array's
    /// end marker.
    pub fn needs_details(&self, hook_account_code: i64) -> (b: bool)
        requires
            self.writer().wf(),
        ensures
            b == (self.writer().fits(1) && self.writer().is_ready_once_array_closed_spec()
                && hook_account_code >= 0 && self.writer().fits(EMIT_DETAILS_MAX_LEN + 1)),
    {
        self.needs_account() && hook_account_code >= 0 && self.writer.has_room(EMIT_DETAILS_MAX_LEN + 1)
    }

    /// Whether [`RemitBuilder::prepare_for_emit`] consults the host's
    /// `etxn_fee_base` answer: only when it consults the details answer and
    /// that answer reports emit details within the region.
    pub fn needs_fee(&self, hook_account_code: i64, details_code: i64) -> (b: bool)
        requires
            self.writer().wf(),
        ensures
            b == (self.writer().fits(1) && self.writer().is_ready_once_array_closed_spec()
                && hook_account_code >= 0 && self.writer().fits(EMIT_DETAILS_MAX_LEN + 1) && 0
                <= details_code <= EMIT_DETAILS_MAX_LEN),
    {
        self.needs_details(hook_account_code) && details_code >= 0 && details_code
            <= EMIT_DETAILS_MAX_LEN as i64
    }

    /// Closes `Amounts` and finalizes the writer for emission, given the
    /// host's answers as [`StoWriter::prepare_for_emit`] takes them; returns
    /// the blob's length. A failed preparation reopens `Amounts`, so the
    /// builder is left as it was and may be prepared again.
    ///
    /// # Errors
    ///
    /// [`RemitError::Preparation`] with the writer's error: closing the
    /// array failed, or preparing failed; either way nothing changed.
    pub fn prepare_for_emit(
        &mut self,
        ledger_seq: u32,
        hook_account_code: i64,
        hook_account: &AccountId,
        details_code: i64,
        details: &[u8],
        fee_code: i64,
    ) -> (r: core::result::Result<usize, RemitError>)
        requires
            old(self).writer().wf(),
            details@.len() == crate::types::EMIT_DETAILS_MAX_LEN,
        ensures
            final(self).writer().wf(),
            ({
                let w0 = old(self).writer();
                if !(!w0.is_finalized() && w0.open_frames().len() > 0 && w0.open_frames().last()
                    == FrameKind::Array && w0.fits(1)) {
                    r == Err::<usize, RemitError>(RemitError::Preparation(HookError::InvalidArgument))
                        && final(self).writer() == w0
                } else {
                    exists|w1: StoWriter, w2: StoWriter, r1: Result<usize>|
                        #[trigger] w1.prepare_outcome(
                            ledger_seq,
                            hook_account_code,
                            hook_account.0@,
                            details_code,
                            details@,
                            fee_code,
                            w2,
                            r1,
                        ) && closed_array(w0, w1) && r == preparation(r1) && (r1 is Ok
                            ==> final(self).writer() == w2) && (r1 is Err ==> restored(
                            w0,
                            final(self).writer(),
                        ))
                }
            }),
            r is Err && old(self).ready() ==> final(self).ready(),
    {
        match self.writer.end_array() {
            Ok(()) => {},
            Err(e) => {
                return Err(RemitError::Preparation(e));
            },
        }
        let ghost w0 = old(self).writer();
        let ghost w1 = self.writer;
        let r1 = self.writer.prepare_for_emit(
            ledger_seq,
            hook_account_code,
            hook_account,
            details_code,
            details,
            fee_code,
        );
        let ghost w2 = self.writer;
        assert(w1.prepare_outcome(
            ledger_seq,
            hook_account_code,
            hook_account.0@,
            details_code,
            details@,
            fee_code,
            w2,
            r1,
        ));
        assert(closed_array(w0, w1));
        match r1 {
            Ok(n) => Ok(n),
            Err(e) => {
                assert(w1.open_frames() =~= w0.open_frames().drop_last());
                self.writer.reopen_array(Ghost(w0));
                Err(RemitError::Preparation(e))
            },
        }
    }
}

/// A builder whose preparation failed prepares again exactly as before the
/// failure: the restored writer closes `Amounts` under the same condition,
/// fails for the same reasons, and yields the same bytes.
pub proof fn lemma_restored_prepares_alike(
    w0: StoWriter,
    w1: StoWriter,
    ledger_seq: u32,
    hook_account_code: i64,
    hook_account: Seq<u8>,
    details_code: i64,
    details: Seq<u8>,
    fee_code: i64,
)
    requires
        restored(w0, w1),
    ensures
        w1.is_finalized() == w0.is_finalized(),
        w1.open_frames() == w0.open_frames(),
        w1.fits(1) == w0.fits(1),
        forall|c0: StoWriter, c1: StoWriter|
            closed_array(w0, c0) && closed_array(w1, c1) ==> c0.prepare_failure(
                hook_account_code,
                details_code,
                fee_code,
            ) == c1.prepare_failure(hook_account_code, details_code, fee_code) && c0.prepared_bytes(
                ledger_seq,
                hook_account,
                fee_code as u64,
                details,
            ) == c1.prepared_bytes(ledger_seq, hook_account, fee_code as u64, details),
{
}

/// Closing `Amounts` leaves the writer ready to prepare exactly when
/// [`RemitBuilder::needs_account`] says so, with room for the emit details
/// exactly when [`RemitBuilder::needs_details`] checks it: so, with
/// [`crate::sto_writer::lemma_unconsulted_answers_do_not_matter`], the
/// answers those functions say are not consulted do not change the outcome.
pub proof fn lemma_closing_decides_what_is_consulted(w0: StoWriter, w1: StoWriter)
    requires
        w0.open_frames().len() > 0,
        w0.open_frames().last() == FrameKind::Array,
        closed_array(w0, w1),
    ensures
        w1.ready_to_prepare() == w0.is_ready_once_array_closed_spec(),
        w1.fits(EMIT_DETAILS_MAX_LEN as int) == w0.fits(EMIT_DETAILS_MAX_LEN + 1),
{
    if w1.open_frames().len() == 0 {
        assert(w0.open_frames() =~= seq![FrameKind::Array]) by {
            assert(w0.open_frames() =~= w0.open_frames().drop_last().push(w0.open_frames().last()));
        }
    }
}

} // verus!
