use rshooks::api::etxn::etxn_nonce_buf;
use rshooks::api::hook_ctx::{hook_account_buf, hook_hash_buf, hook_param_exact, hook_param_opt, hook_param_typed};
use rshooks::api::keylet::{keylet_line_for_asset, keylet_line_for_asset_into, keylet_slots, skip_components, KeyletArg};
use rshooks::api::otxn::{
    otxn_field_exact, otxn_field_typed, otxn_id_buf, otxn_param_exact, otxn_param_opt,
    otxn_param_typed,
};
use rshooks::api::slot::slot_exact;
use rshooks::api::util::{util_accid_buf, util_keylet_buf, util_sha512h_buf};
use rshooks::codes;
use rshooks::convert::{ToBytes, TypedParamName};
use rshooks::error::HookError;
use rshooks::sfield::{sfAccount, sfAmount, sfFlags};
use rshooks::slot_obj::AmountBytes;
use rshooks::types::{
    AccountId, Amount, CurrencyCode, IssuedAsset, Keylet, NativeAmount, SField,
};

const N: i64 = codes::NOT_IMPLEMENTED;

struct TestParamName;

impl ToBytes for TestParamName {
    const MAX_LEN: usize = 1;

    fn write(&self, buf: &mut [u8]) -> usize {
        ToBytes::write(b"x", buf)
    }
}

impl TypedParamName for TestParamName {
    type Value = [u8; 4];
}

#[test]
fn hook_ctx_smoke_not_implemented_on_host() {
    assert_eq!(hook_account_buf(N, &[0u8; 20]), Err(HookError::NotImplemented));
    assert_eq!(hook_hash_buf(N, &[0u8; 32]), Err(HookError::NotImplemented));
    assert_eq!(hook_param_exact::<[u8; 4]>(N, &[0u8; 5]), Err(HookError::NotImplemented));
    assert_eq!(hook_param_opt::<[u8; 4]>(N, &[0u8; 5]), Err(HookError::NotImplemented));
    assert_eq!(hook_param_typed(&TestParamName, N, &[0u8; 5]), Err(HookError::NotImplemented));
    assert_eq!(TestParamName.name_bytes(), b"x".to_vec());
}

#[test]
fn otxn_smoke_not_implemented_on_host() {
    assert_eq!(otxn_field_exact::<[u8; 20]>(N, &[0u8; 20]), Err(HookError::NotImplemented));
    assert_eq!(otxn_id_buf(N, &[0u8; 32]), Err(HookError::NotImplemented));
    assert_eq!(otxn_param_exact::<[u8; 4]>(N, &[0u8; 4]), Err(HookError::NotImplemented));
    assert_eq!(otxn_param_opt::<[u8; 4]>(N, &[0u8; 4]), Err(HookError::NotImplemented));
    assert_eq!(otxn_param_typed(&TestParamName, N, &[0u8; 4]), Err(HookError::NotImplemented));
    assert_eq!(
        otxn_field_typed(SField::<AccountId>::new(sfAccount), N, &[0u8; 20]),
        Err(HookError::NotImplemented)
    );
}

#[test]
fn otxn_id_buf_short_host_answer_is_too_small() {
    let mut buf = [0u8; 32];
    buf[..3].copy_from_slice(&[1, 2, 3]);
    assert_eq!(otxn_id_buf(3, &buf), Err(HookError::TooSmall));
}

#[test]
fn otxn_field_typed_decodes_by_the_field_type() {
    assert_eq!(otxn_field_typed(SField::<u32>::new(sfFlags), 0x8000_0000, &[]), Ok(0x8000_0000));
    assert_eq!(otxn_field_typed(SField::<u16>::new(sfFlags), 0x1_0000, &[]), Err(HookError::TooBig));
    assert_eq!(otxn_field_typed(SField::<u64>::new(sfFlags), 8, &[0, 0, 0, 0, 0, 0, 2, 0]), Ok(512));
    let mut buf = [0u8; 48];
    buf[..8].copy_from_slice(&[3u8; 8]);
    assert_eq!(
        otxn_field_typed(SField::<Amount>::new(sfAmount), 8, &buf),
        Ok(AmountBytes::Native(NativeAmount([3u8; 8])))
    );
    assert_eq!(
        otxn_field_typed(SField::<AccountId>::new(sfAccount), 20, &[7u8; 20]),
        Ok(AccountId([7u8; 20]))
    );
}

#[test]
fn slot_smoke_not_implemented_on_host() {
    assert_eq!(slot_exact::<[u8; 8]>(N, &[0u8; 8]), Err(HookError::NotImplemented));
    assert_eq!(slot_exact::<[u8; 2]>(2, &[4, 5]), Ok([4, 5]));
}

#[test]
fn etxn_smoke_not_implemented_on_host() {
    assert!(etxn_nonce_buf(N, &[0u8; 32]).is_err());
    assert_eq!(etxn_nonce_buf(32, &[6u8; 32]).map(|n| n.0), Ok([6u8; 32]));
}

#[test]
fn util_smoke_not_implemented_on_host() {
    assert_eq!(util_accid_buf(N, &[0u8; 20]), Err(HookError::NotImplemented));
    assert_eq!(util_sha512h_buf(N, &[0u8; 32]), Err(HookError::NotImplemented));
    assert_eq!(util_keylet_buf(N, &[0u8; 34]), Err(HookError::NotImplemented));
    assert_eq!(util_accid_buf(20, &[1u8; 20]), Ok(AccountId([1u8; 20])));
    assert_eq!(util_keylet_buf(34, &[2u8; 34]), Ok(Keylet([2u8; 34])));
}

#[test]
fn keylet_smoke_not_implemented_on_host() {
    let mut out = Keylet([0u8; 34]);
    assert_eq!(keylet_line_for_asset_into(&mut out, N, &[5u8; 34]), Err(HookError::NotImplemented));
    assert_eq!(out, Keylet([0u8; 34]));
    assert_eq!(keylet_line_for_asset_into(&mut out, 34, &[5u8; 34]), Ok(()));
    assert_eq!(out, Keylet([5u8; 34]));
    assert_eq!(skip_components(Some(9)), (9, 1));
    assert_eq!(skip_components(None), (0, 0));
    let account = AccountId([1u8; 20]);
    let asset = IssuedAsset { currency: CurrencyCode([2u8; 20]), issuer: AccountId([3u8; 20]) };
    let (a, issuer, currency) = keylet_line_for_asset(&account, &asset);
    assert_eq!((*a, *issuer, *currency), (account, asset.issuer, asset.currency));
}

#[test]
fn params_read_present_absent_and_wrong_size() {
    assert_eq!(hook_param_opt::<[u8; 2]>(2, &[1, 2, 0]), Ok(Some([1, 2])));
    assert_eq!(hook_param_opt::<[u8; 2]>(codes::DOESNT_EXIST, &[0, 0, 0]), Ok(None));
    assert_eq!(otxn_param_opt::<[u8; 2]>(1, &[0, 0]), Err(HookError::TooSmall));
    assert_eq!(hook_account_buf(20, &[8u8; 20]), Ok(AccountId([8u8; 20])));
}

#[test]
fn keylet_slots_lay_out_bytes_as_pointer_and_length_then_pad() {
    assert_eq!(keylet_slots(&[]), Some([0; 6]));
    assert_eq!(
        keylet_slots(&[KeyletArg::Bytes(0x100, 20), KeyletArg::Value(7)]),
        Some([0x100, 20, 7, 0, 0, 0])
    );
    assert_eq!(
        keylet_slots(&[KeyletArg::Bytes(1, 20), KeyletArg::Bytes(2, 20), KeyletArg::Bytes(3, 20)]),
        Some([1, 20, 2, 20, 3, 20])
    );
    assert_eq!(
        keylet_slots(&[KeyletArg::Bytes(1, 20), KeyletArg::Bytes(2, 20), KeyletArg::Bytes(3, 20), KeyletArg::Value(4)]),
        None
    );
    assert_eq!(keylet_slots(&[KeyletArg::Value(9); 7]), None);
    assert_eq!(keylet_slots(&[KeyletArg::Value(9); 6]), Some([9; 6]));
}
