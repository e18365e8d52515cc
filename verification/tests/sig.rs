use rshooks::codes;
use rshooks::error::{HookError, Result};
use rshooks::sig::{
    hook_sig_param, hook_sig_param_opt, is_supported_type_byte, otxn_sig_param, otxn_sig_param_opt,
    sig_param_name, Blob,
    IssueBytes, SigName, SigParamType,
};
use rshooks::slot_obj::AmountBytes;
use rshooks::types::{AccountId, CurrencyCode, IouAmount, IssuedAsset, NativeAmount};

// --- sig_param_name name-builder vectors ---

#[test]
fn name_vector_account() {
    let name: [u8; 14] = sig_param_name::<14>(0, 0x08, b"account");
    assert_eq!(
        name,
        [0x5F, 0x50, 0x53, 0x00, 0x00, 0x08, 0x07, b'a', b'c', b'c', b'o', b'u', b'n', b't']
    );
}

#[test]
fn name_vector_count() {
    let name: [u8; 12] = sig_param_name::<12>(1, 0x01, b"count");
    assert_eq!(name, [0x5F, 0x50, 0x53, 0x00, 0x01, 0x01, 0x05, b'c', b'o', b'u', b'n', b't']);
}

#[test]
fn sig_name_macro_matches_direct_call() {
    // The type byte a `u16` parameter's name carries is `u16`'s own.
    let via_type: [u8; 12] = sig_param_name::<12>(1, <u16 as SigParamType>::TYPE_BYTE, b"count");
    let via_fn: [u8; 12] = sig_param_name::<12>(1, 0x01, b"count");
    assert_eq!(via_type, via_fn);
}

#[test]
fn name_sixteen_byte_name_at_max_index() {
    let name: [u8; 23] = sig_param_name::<23>(0x0F, 0x10, b"abcdefghijklmnop");
    let mut expected = [0u8; 23];
    expected[0] = 0x5F;
    expected[1] = 0x50;
    expected[2] = 0x53;
    expected[4] = 0x0F;
    expected[5] = 0x10;
    expected[6] = 0x10;
    expected[7..].copy_from_slice(b"abcdefghijklmnop");
    assert_eq!(name, expected);
}

// --- SigParamType decoding: the host's count and the buffer it filled ---

#[test]
fn u8_decodes() {
    let v: Result<u8> = u8::read_sig(Ok(1), &[0x42]);
    assert_eq!(v, Ok(0x42));
}

#[test]
fn u8_wrong_length_is_too_small() {
    let v: Result<u8> = u8::read_sig(Ok(0), &[0]);
    assert_eq!(v, Err(HookError::TooSmall));
}

#[test]
fn u16_decodes_big_endian() {
    let v: Result<u16> = u16::read_sig(Ok(2), &[0x00, 0x05]);
    assert_eq!(v, Ok(5u16));
}

#[test]
fn u16_wrong_length_is_too_small() {
    let v: Result<u16> = u16::read_sig(Ok(1), &[0, 0]);
    assert_eq!(v, Err(HookError::TooSmall));
}

#[test]
fn u32_decodes_big_endian() {
    let v: Result<u32> = u32::read_sig(Ok(4), &[0x00, 0x00, 0x01, 0x00]);
    assert_eq!(v, Ok(256u32));
}

#[test]
fn u64_decodes_big_endian() {
    let v: Result<u64> = u64::read_sig(Ok(8), &[0, 0, 0, 0, 0, 0, 1, 0]);
    assert_eq!(v, Ok(256u64));
}

#[test]
fn fixed_16_decodes() {
    let v: Result<[u8; 16]> = <[u8; 16]>::read_sig(Ok(16), &[7u8; 16]);
    assert_eq!(v, Ok([7u8; 16]));
}

#[test]
fn fixed_32_decodes() {
    let v: Result<[u8; 32]> = <[u8; 32]>::read_sig(Ok(32), &[9u8; 32]);
    assert_eq!(v, Ok([9u8; 32]));
}

#[test]
fn hash_decodes() {
    let v: Result<rshooks::types::Hash> = rshooks::types::Hash::read_sig(Ok(32), &[1u8; 32]);
    assert_eq!(v, Ok(rshooks::types::Hash([1u8; 32])));
}

#[test]
fn account_id_decodes() {
    let v: Result<AccountId> = AccountId::read_sig(Ok(20), &[2u8; 20]);
    assert_eq!(v, Ok(AccountId([2u8; 20])));
}

#[test]
fn fixed_20_decodes() {
    let v: Result<[u8; 20]> = <[u8; 20]>::read_sig(Ok(20), &[3u8; 20]);
    assert_eq!(v, Ok([3u8; 20]));
}

#[test]
fn currency_code_decodes() {
    let v: Result<CurrencyCode> = CurrencyCode::read_sig(Ok(20), &[4u8; 20]);
    assert_eq!(v, Ok(CurrencyCode([4u8; 20])));
}

#[test]
fn amount_bytes_native_8() {
    let mut buf = [0u8; 48];
    buf[..8].copy_from_slice(&[5u8; 8]);
    let v: Result<AmountBytes> = AmountBytes::read_sig(Ok(8), &buf);
    assert_eq!(v, Ok(AmountBytes::Native(NativeAmount([5u8; 8]))));
}

#[test]
fn amount_bytes_iou_48() {
    let v: Result<AmountBytes> = AmountBytes::read_sig(Ok(48), &[6u8; 48]);
    assert_eq!(v, Ok(AmountBytes::Iou(IouAmount([6u8; 48]))));
}

#[test]
fn amount_bytes_wrong_length_is_parse_error() {
    let mut buf = [0u8; 48];
    buf[..10].fill(1);
    let v: Result<AmountBytes> = AmountBytes::read_sig(Ok(10), &buf);
    assert_eq!(v, Err(HookError::ParseError));
}

#[test]
fn issue_bytes_native_all_zero() {
    let buf = [0u8; 44];
    let v: Result<IssueBytes> = IssueBytes::read_sig(Ok(20), &buf);
    assert_eq!(v, Ok(IssueBytes::Native));
}

#[test]
fn issue_bytes_twenty_nonzero_is_error() {
    let mut buf = [0u8; 44];
    buf[..20].fill(1);
    let v: Result<IssueBytes> = IssueBytes::read_sig(Ok(20), &buf);
    assert_eq!(v, Err(HookError::ParseError));
}

#[test]
fn issue_bytes_forty_decodes_currency_then_issuer() {
    let mut buf = [0u8; 44];
    buf[..20].fill(0xAA);
    buf[20..40].fill(0xBB);
    let v: Result<IssueBytes> = IssueBytes::read_sig(Ok(40), &buf);
    assert_eq!(
        v,
        Ok(IssueBytes::Issued(IssuedAsset {
            currency: CurrencyCode([0xAA; 20]),
            issuer: AccountId([0xBB; 20]),
        }))
    );
}

#[test]
fn issue_bytes_other_length_is_parse_error() {
    let v: Result<IssueBytes> = IssueBytes::read_sig(Ok(5), &[0u8; 44]);
    assert_eq!(v, Err(HookError::ParseError));
}

#[test]
fn issue_bytes_read_buffer_is_forty_four_bytes_so_mpt_shaped_values_are_read_and_rejected() {
    assert_eq!(<IssueBytes as SigParamType>::READ_LEN, 44);
    let buf = [0xCCu8; 44];
    let v: Result<IssueBytes> = IssueBytes::read_sig(Ok(44), &buf);
    assert_eq!(v, Err(HookError::ParseError));
}

#[test]
fn blob_within_bounds_decodes() {
    let mut buf = [0u8; 8];
    buf[..3].copy_from_slice(&[1, 2, 3]);
    let v: Result<Blob<8>> = Blob::<8>::read_sig(Ok(3), &buf);
    assert_eq!(v, Ok(Blob { len: 3, bytes: [1, 2, 3, 0, 0, 0, 0, 0] }));
    if let Ok(blob) = v {
        assert_eq!(blob.as_bytes(), &[1, 2, 3]);
        assert!(!blob.is_empty());
    }
}

#[test]
fn blob_full_width_decodes() {
    let v: Result<Blob<4>> = Blob::<4>::read_sig(Ok(4), &[9, 9, 9, 9]);
    assert_eq!(v, Ok(Blob { len: 4, bytes: [9, 9, 9, 9] }));
}

#[test]
fn blob_zero_length_is_too_small() {
    let v: Result<Blob<4>> = Blob::<4>::read_sig(Ok(0), &[0u8; 4]);
    assert_eq!(v, Err(HookError::TooSmall));
}

#[test]
fn blob_overflow_propagates_host_too_small() {
    // The host itself rejects an over-length value.
    let v: Result<Blob<4>> = Blob::<4>::read_sig(Err(HookError::TooSmall), &[0u8; 4]);
    assert_eq!(v, Err(HookError::TooSmall));
}

// --- host answers (a host build answers NOT_IMPLEMENTED) ---

#[test]
fn sig_smoke_not_implemented_on_host() {
    let name: [u8; 12] = sig_param_name::<12>(0, <u16 as SigParamType>::TYPE_BYTE, b"count");
    let buf = [0u8; 2];
    assert_eq!(otxn_sig_param::<u16>(codes::NOT_IMPLEMENTED, &buf), Err(HookError::NotImplemented));
    assert_eq!(hook_sig_param::<u16>(codes::NOT_IMPLEMENTED, &buf), Err(HookError::NotImplemented));
    assert_eq!(otxn_sig_param_opt::<u16>(codes::NOT_IMPLEMENTED, &buf), Err(HookError::NotImplemented));
    assert_eq!(hook_sig_param_opt::<u16>(codes::NOT_IMPLEMENTED, &buf), Err(HookError::NotImplemented));

    let leaked: &'static [u8] = Box::leak(Box::new(name));
    let sig_name_handle: SigName<u16> = SigName::new(leaked);
    assert_eq!(sig_name_handle.as_bytes(), &name);
    assert_eq!(sig_name_handle.otxn_read(codes::NOT_IMPLEMENTED, &buf), Err(HookError::NotImplemented));
    assert_eq!(sig_name_handle.hook_read(codes::NOT_IMPLEMENTED, &buf), Err(HookError::NotImplemented));
}

#[test]
fn sig_params_decode_present_and_absent_answers() {
    let buf = [0x01u8, 0x02];
    assert_eq!(otxn_sig_param::<u16>(2, &buf), Ok(0x0102));
    assert_eq!(hook_sig_param_opt::<u16>(2, &buf), Ok(Some(0x0102)));
    assert_eq!(hook_sig_param_opt::<u16>(codes::DOESNT_EXIST, &buf), Ok(None));
    assert_eq!(otxn_sig_param_opt::<u16>(1, &buf), Err(HookError::TooSmall));
    assert_eq!(otxn_sig_param::<u16>(codes::DOESNT_EXIST, &buf), Err(HookError::DoesntExist));
}

#[test]
fn supported_type_bytes_are_exactly_the_listed_ones() {
    for b in [0x01u8, 0x02, 0x03, 0x04, 0x05, 0x06, 0x07, 0x08, 0x10, 0x11, 0x18, 0x1A] {
        assert!(is_supported_type_byte(b), "{b:#x}");
    }
    for b in [0x00u8, 0x09, 0x0F, 0x12, 0x19, 0x1B, 0xFF] {
        assert!(!is_supported_type_byte(b), "{b:#x}");
    }
}
