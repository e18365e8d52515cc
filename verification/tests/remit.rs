use rshooks::codec;
use rshooks::convert::exact_array_read;
use rshooks::codes;
use rshooks::error::HookError;
use rshooks::remit::{RemitBuilder, RemitError, REMIT_PREFIX_LEN};
use rshooks::sfield::{
    sfAccount, sfAmount, sfAmountEntry, sfAmounts, sfDestination, sfFee, sfFirstLedgerSequence,
    sfFlags, sfLastLedgerSequence, sfSequence, sfSigningPubKey, sfTransactionType, TF_CANONICAL,
    TT_REMIT,
};
use rshooks::sto_writer::StoWriter;
use rshooks::testenv_bridge::write_array;
use rshooks::types::{AccountId, ACC_ID_LEN, EMIT_DETAILS_MAX_LEN};

const EMIT_DETAILS: [u8; 116] = [0xEE_u8; 116];
const HOOK_ACCOUNT: AccountId = AccountId([0xAB; ACC_ID_LEN]);
const LEDGER_SEQ: u32 = 1000;
const FEE_BASE: i64 = 12;

/// The host's emit-details answer: 116 bytes written into the 138-byte
/// region.
fn details_region() -> Vec<u8> {
    let mut d = vec![0u8; EMIT_DETAILS_MAX_LEN];
    d[..116].copy_from_slice(&EMIT_DETAILS);
    d
}

/// Prepares with fixed host answers: ledger 1000, a 20-byte account,
/// 116 bytes of emit details and a fee of 12 drops.
fn prepare(remit: &mut RemitBuilder) -> Result<usize, RemitError> {
    remit.prepare_for_emit(LEDGER_SEQ, 20, &HOOK_ACCOUNT, 116, &details_region(), FEE_BASE)
}

fn push_header(out: &mut Vec<u8>, code: u32) {
    let (hdr, len) = codec::field_header(code);
    out.extend_from_slice(&hdr[..len]);
}

fn native(drops: u64) -> [u8; 8] {
    codec::encode_native_amount(drops).expect("in range")
}

fn expected_prefix(destination: &AccountId, fls: u32, lls: u32, account: &AccountId) -> Vec<u8> {
    let mut out = Vec::new();
    push_header(&mut out, sfTransactionType);
    out.extend_from_slice(&TT_REMIT.to_be_bytes());
    push_header(&mut out, sfFlags);
    out.extend_from_slice(&TF_CANONICAL.to_be_bytes());
    push_header(&mut out, sfSequence);
    out.extend_from_slice(&0u32.to_be_bytes());
    push_header(&mut out, sfFirstLedgerSequence);
    out.extend_from_slice(&fls.to_be_bytes());
    push_header(&mut out, sfLastLedgerSequence);
    out.extend_from_slice(&lls.to_be_bytes());
    push_header(&mut out, sfFee);
    out.extend_from_slice(&native(12));
    push_header(&mut out, sfSigningPubKey);
    out.push(0);
    push_header(&mut out, sfAccount);
    out.push(ACC_ID_LEN as u8);
    out.extend_from_slice(&account.0);
    push_header(&mut out, sfDestination);
    out.push(ACC_ID_LEN as u8);
    out.extend_from_slice(&destination.0);
    out
}

fn amount_entry_bytes(drops: u64) -> Vec<u8> {
    let mut out = Vec::new();
    push_header(&mut out, sfAmountEntry);
    push_header(&mut out, sfAmount);
    out.extend_from_slice(&native(drops));
    out.push(0xE1); // ObjectEndMarker
    out
}

#[test]
fn one_amount_produces_byte_exact_output() {
    let destination = AccountId([0x22; ACC_ID_LEN]);
    let mut remit = RemitBuilder::new(vec![0u8; 512], &destination).expect("fits");
    remit.push_native_amount(42).expect("fits");
    let len = prepare(&mut remit).expect("all required fields present");

    let mut expected = expected_prefix(&destination, 1001, 1005, &HOOK_ACCOUNT);
    push_header(&mut expected, sfAmounts);
    expected.extend_from_slice(&amount_entry_bytes(42));
    expected.push(0xF1); // ArrayEndMarker
    expected.extend_from_slice(&EMIT_DETAILS);

    assert_eq!(remit.as_bytes(), &expected[..]);
    assert_eq!(len, expected.len());
}

#[test]
fn two_amounts_produce_byte_exact_output() {
    let destination = AccountId([0x33; ACC_ID_LEN]);
    let mut remit = RemitBuilder::new(vec![0u8; 512], &destination).expect("fits");
    remit.push_native_amount(1).expect("fits");
    remit.push_native_amount(2).expect("fits");
    prepare(&mut remit).expect("all required fields present");

    let mut expected = expected_prefix(&destination, 1001, 1005, &HOOK_ACCOUNT);
    push_header(&mut expected, sfAmounts);
    expected.extend_from_slice(&amount_entry_bytes(1));
    expected.extend_from_slice(&amount_entry_bytes(2));
    expected.push(0xF1);
    expected.extend_from_slice(&EMIT_DETAILS);

    assert_eq!(remit.as_bytes(), &expected[..]);
}

fn one_amount_flow_fits(destination: &AccountId, len: usize) -> bool {
    let Ok(mut remit) = RemitBuilder::new(vec![0u8; len], destination) else {
        return false;
    };
    if remit.push_native_amount(7).is_err() {
        return false;
    }
    prepare(&mut remit).is_ok()
}

#[test]
fn capacity_boundary_is_exact_and_never_panics() {
    let destination = AccountId([0x44; ACC_ID_LEN]);
    let min_len = (0..=512)
        .find(|&len| one_amount_flow_fits(&destination, len))
        .expect("512 bytes is enough for one native amount");
    assert!(!one_amount_flow_fits(&destination, min_len - 1));
}

fn two_pushes_fit(destination: &AccountId, len: usize) -> bool {
    let Ok(mut remit) = RemitBuilder::new(vec![0u8; len], destination) else {
        return false;
    };
    if remit.push_native_amount(7).is_err() {
        return false;
    }
    remit.push_native_amount(8).is_ok()
}

#[test]
fn second_push_can_fail_as_capacity_after_the_first_succeeds() {
    let destination = AccountId([0x66; ACC_ID_LEN]);
    let min_two = (0..=512)
        .find(|&len| two_pushes_fit(&destination, len))
        .expect("512 bytes is enough for two native amounts");

    let mut remit = RemitBuilder::new(vec![0u8; min_two - 1], &destination).expect("fits one entry");
    remit.push_native_amount(7).expect("first entry fits");
    assert_eq!(remit.push_native_amount(8), Err(RemitError::Capacity), "no room left for a second entry");
}

#[test]
fn native_amount_out_of_range_is_rejected_as_invalid_amount() {
    let mut remit = RemitBuilder::new(vec![0u8; 512], &AccountId::default()).expect("fits");
    assert_eq!(remit.push_native_amount(1u64 << 62), Err(RemitError::InvalidAmount));
}

#[test]
fn issued_amount_without_a_float_sto_backend_is_rejected_as_encoding() {
    let mut remit = RemitBuilder::new(vec![0u8; 512], &AccountId::default()).expect("fits");
    let region = vec![0u8; StoWriter::iou_amount_region_len(sfAmount)];
    assert_eq!(
        remit.push_issued_amount(codes::NOT_IMPLEMENTED, &region),
        Err(RemitError::Encoding(HookError::NotImplemented))
    );
}

#[test]
fn zero_amounts_prepares_with_an_empty_array_and_appended_emit_details() {
    let destination = AccountId::default();
    let mut remit = RemitBuilder::new(vec![0u8; 512], &destination).expect("fits");
    prepare(&mut remit).expect("no pushes required");

    let mut expected = expected_prefix(&destination, 1001, 1005, &HOOK_ACCOUNT);
    push_header(&mut expected, sfAmounts);
    expected.push(0xF1);
    expected.extend_from_slice(&EMIT_DETAILS);

    assert_eq!(remit.as_bytes(), &expected[..]);
}

#[test]
fn new_needs_exactly_the_fixed_prefix() {
    let destination = AccountId([0x10; ACC_ID_LEN]);
    assert!(RemitBuilder::new(vec![0u8; REMIT_PREFIX_LEN], &destination).is_ok());
    assert_eq!(
        RemitBuilder::new(vec![0u8; REMIT_PREFIX_LEN - 1], &destination).err(),
        Some(RemitError::Capacity)
    );
}

#[test]
fn issued_amount_entry_wraps_the_host_encoding() {
    let mut remit = RemitBuilder::new(vec![0u8; 512], &AccountId::default()).expect("fits");
    let before = remit.as_bytes().len();
    let mut region = vec![0x5Au8; StoWriter::iou_amount_region_len(sfAmount)];
    region[0] = 0x61;
    remit.push_issued_amount(region.len() as i64, &region).expect("fits");
    let bytes = remit.as_bytes();
    assert_eq!(&bytes[before..before + 2], &[0xE0, 0x5B]);
    assert_eq!(&bytes[before + 2..before + 2 + region.len()], &region[..]);
    assert_eq!(bytes[bytes.len() - 1], 0xE1);
}

#[test]
fn preparation_errors_are_tagged() {
    let mut remit = RemitBuilder::new(vec![0u8; 200], &AccountId::default()).expect("fits");
    assert_eq!(
        remit.prepare_for_emit(1, codes::NOT_IMPLEMENTED, &HOOK_ACCOUNT, 116, &details_region(), 12),
        Err(RemitError::Preparation(HookError::NotImplemented))
    );
}

#[test]
fn fee_basis_closes_the_amounts_array_before_the_details() {
    let destination = AccountId([0x22; ACC_ID_LEN]);
    let mut remit = RemitBuilder::new(vec![0u8; 512], &destination).expect("fits");
    remit.push_native_amount(1_000).expect("fits");
    let written = remit.as_bytes().to_vec();
    let mut d = details_region();
    d[..2].copy_from_slice(&[0xAB, 0xCD]);
    let mut expected = written.clone();
    expected.push(0xF1);
    expected.extend_from_slice(&[0xAB, 0xCD]);
    assert_eq!(remit.fee_basis(2, &d), expected);
    let mut closed_only = written;
    closed_only.push(0xF1);
    assert_eq!(remit.fee_basis(codes::PREREQUISITE_NOT_MET, &d), closed_only);
}

#[test]
fn prepare_for_emit_patches_plumbing_fields_and_emits() {
    let destination = AccountId([0x66; ACC_ID_LEN]);
    let mut remit = RemitBuilder::new(vec![0u8; 512], &destination).expect("fits");
    remit.push_native_amount(9).expect("fits");
    let n = prepare(&mut remit).expect("all required fields present");
    assert_eq!(remit.as_bytes().len(), n);

    let mut expected = expected_prefix(&destination, 1001, 1005, &HOOK_ACCOUNT);
    push_header(&mut expected, sfAmounts);
    expected.extend_from_slice(&amount_entry_bytes(9));
    expected.push(0xF1);
    expected.extend_from_slice(&EMIT_DETAILS);
    assert_eq!(remit.as_bytes(), &expected[..]);

    // The host's `emit` answer: the emitted transaction's hash, written
    // into a 32-byte buffer.
    let mut out = [0u8; 32];
    let written = write_array(&mut out, Ok([0x99u8; 32]));
    let hash = exact_array_read::<32>(written, &out).map(rshooks::types::Hash).expect("a full hash");
    assert_eq!(hash.0, [0x99u8; 32]);
}

#[test]
fn pushes_and_preparation_after_preparation_are_refused_and_change_nothing() {
    let destination = AccountId([0x33; ACC_ID_LEN]);
    let mut remit = RemitBuilder::new(vec![0u8; 512], &destination).expect("fits");
    prepare(&mut remit).expect("prepares");
    let before = remit.as_bytes().to_vec();
    assert_eq!(remit.push_native_amount(5), Err(RemitError::Capacity));
    assert_eq!(remit.push_issued_amount(49, &[0u8; 49]), Err(RemitError::Capacity));
    assert_eq!(prepare(&mut remit), Err(RemitError::Preparation(HookError::InvalidArgument)));
    assert_eq!(remit.as_bytes(), &before[..]);
}

#[test]
fn failed_preparation_leaves_the_builder_ready_to_retry() {
    let destination = AccountId([0x44; ACC_ID_LEN]);
    let mut once = RemitBuilder::new(vec![0u8; 512], &destination).expect("fits");
    once.push_native_amount(9).expect("fits");
    let n_once = prepare(&mut once).expect("prepares");

    let mut retried = RemitBuilder::new(vec![0u8; 512], &destination).expect("fits");
    retried.push_native_amount(9).expect("fits");
    let before = retried.as_bytes().to_vec();
    assert_eq!(
        retried.prepare_for_emit(LEDGER_SEQ, 20, &HOOK_ACCOUNT, 116, &details_region(), codes::NOT_IMPLEMENTED),
        Err(RemitError::Preparation(HookError::NotImplemented))
    );
    assert_eq!(retried.as_bytes(), &before[..]);
    assert_eq!(retried.push_native_amount(10), Ok(()));
    let mut expected = before.clone();
    expected.extend_from_slice(&amount_entry_bytes(10));
    assert_eq!(retried.as_bytes(), &expected[..]);

    let mut again = RemitBuilder::new(vec![0u8; 512], &destination).expect("fits");
    again.push_native_amount(9).expect("fits");
    assert!(again.prepare_for_emit(LEDGER_SEQ, 20, &HOOK_ACCOUNT, 116, &details_region(), codes::NOT_IMPLEMENTED).is_err());
    assert_eq!(prepare(&mut again), Ok(n_once));
    assert_eq!(again.as_bytes(), once.as_bytes());
}

#[test]
fn new_records_where_the_plumbing_values_sit() {
    let destination = AccountId([0x55; ACC_ID_LEN]);
    let mut remit = RemitBuilder::new(vec![0u8; 512], &destination).expect("fits");
    prepare(&mut remit).expect("prepares");
    let b = remit.as_bytes();
    assert_eq!(&b[15..19], &(LEDGER_SEQ + 1).to_be_bytes());
    assert_eq!(&b[21..25], &(LEDGER_SEQ + 5).to_be_bytes());
    assert_eq!(&b[26..34], &native(FEE_BASE as u64));
    assert_eq!(&b[38..58], &HOOK_ACCOUNT.0);
}

#[test]
fn a_remit_consults_the_host_only_when_it_can_prepare() {
    let destination = AccountId([0x66; ACC_ID_LEN]);
    let remit = RemitBuilder::new(vec![0u8; 512], &destination).expect("fits");
    assert!(remit.needs_account());
    assert!(!remit.needs_details(codes::NOT_IMPLEMENTED));
    assert!(remit.needs_details(20));
    assert!(remit.needs_fee(20, 116));
    assert!(!remit.needs_fee(20, -1));

    let mut prepared = RemitBuilder::new(vec![0u8; 512], &destination).expect("fits");
    prepare(&mut prepared).expect("prepares");
    assert!(!prepared.needs_account());

    let tight = RemitBuilder::new(vec![0u8; REMIT_PREFIX_LEN + EMIT_DETAILS_MAX_LEN], &destination).expect("fits");
    assert!(tight.needs_account());
    assert!(!tight.needs_details(20));
}
