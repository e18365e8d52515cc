use rshooks::api::float::float_sto;
use rshooks::api::hook_ctx::hook_param_exact;
use rshooks::codes;
use rshooks::error::{res, HookError};
use rshooks::reply::res_u64;
use rshooks::testenv_bridge::{
    as_int64_code, foreign_target, keylet_result, write_array, write_bytes, write_bytes_code,
    write_bytes_truncate, write_bytes_truncate_code,
};
use rshooks::types::{AccountId, CurrencyCode};

#[test]
fn hook_param_undersized_destination_truncates_never_too_small() {
    let mut out = [0u8; 4];
    assert_eq!(write_bytes_truncate(&mut out, Ok(vec![1, 2, 3, 4, 5, 6, 7, 8, 9])), Ok(4));
    assert_eq!(out, [1, 2, 3, 4]);
}

#[test]
fn hook_param_raw_code_undersized_destination_truncates() {
    let mut out = [0u8; 4];
    assert_eq!(write_bytes_truncate_code(&mut out, Ok(vec![1, 2, 3, 4, 5, 6, 7, 8, 9])), 4);
    assert_eq!(out, [1, 2, 3, 4]);
}

#[test]
fn state_reads_backend_bytes_through_the_public_wrapper() {
    let mut out = [0u8; 8];
    let n = write_bytes(&mut out, Ok(vec![0xAA, 0xBB, 0xCC, 0xDD])).unwrap();
    assert_eq!(n, 4);
    assert_eq!(&out[..4], &[0xAA, 0xBB, 0xCC, 0xDD]);
}

#[test]
fn state_undersized_destination_yields_too_small_never_truncates() {
    let mut out = [0u8; 4];
    assert_eq!(write_bytes(&mut out, Ok(vec![1, 2, 3, 4, 5, 6, 7, 8, 9])), Err(HookError::TooSmall));
    assert_eq!(out, [0u8; 4]);
}

#[test]
fn state_u64_round_trips_through_the_backend_byte_path() {
    assert_eq!(res_u64(as_int64_code(Ok(vec![0x01, 0x02, 0x03, 0x04]))), Ok(0x0102_0304));
}

#[test]
fn state_foreign_rejects_wrong_length_targets_like_the_host() {
    let short_ns: &[u8] = &[0u8; 16];
    let short_acc: &[u8] = &[0u8; 4];
    let ns_err = foreign_target(Some(short_ns), None).unwrap_err();
    assert_eq!(res(ns_err), Err(HookError::InvalidArgument));
    let acc_err = foreign_target(None, Some(short_acc)).unwrap_err();
    assert_eq!(res(acc_err), Err(HookError::InvalidAccount));
    let ns = [0u8; 32];
    let acc = [0u8; 20];
    let (n, a) = foreign_target(Some(&ns), Some(&acc)).unwrap();
    assert_eq!(n, Some(ns));
    assert_eq!(a, Some(acc));
    let mut out = [0u8; 8];
    assert_eq!(write_bytes(&mut out, Ok(vec![0xEE])), Ok(1));
}

#[test]
fn float_sto_rejects_mixed_options() {
    let currency = CurrencyCode::default();
    assert_eq!(float_sto(Some(&currency), None, 0), Err(HookError::InvalidArgument));
}

#[test]
fn float_sto_issuer_without_currency_is_refused() {
    let issuer = AccountId::default();
    assert_eq!(float_sto(None, Some(&issuer), 48), Err(HookError::InvalidArgument));
}

#[test]
fn float_sto_consistent_options_pass_the_host_answer_through() {
    let currency = CurrencyCode::default();
    let issuer = AccountId::default();
    assert_eq!(float_sto(Some(&currency), Some(&issuer), 48), Ok(48));
    assert_eq!(float_sto(None, None, 9), Ok(9));
    assert_eq!(float_sto(None, None, codes::INVALID_FLOAT), Err(HookError::from_code(codes::INVALID_FLOAT)));
}

#[test]
fn write_bytes_error_answer_leaves_the_buffer_alone() {
    let mut out = [7u8; 4];
    assert_eq!(write_bytes(&mut out, Err(codes::DOESNT_EXIST)), Err(HookError::DoesntExist));
    assert_eq!(out, [7u8; 4]);
}

#[test]
fn write_bytes_fitting_value_lands_at_the_front() {
    let mut out = [9u8; 6];
    assert_eq!(write_bytes(&mut out, Ok(vec![1, 2, 3])), Ok(3));
    assert_eq!(out, [1, 2, 3, 9, 9, 9]);
}

#[test]
fn write_array_never_truncates() {
    let mut out = [0u8; 2];
    assert_eq!(write_array(&mut out, Ok([1u8, 2, 3])), Err(HookError::TooSmall));
    assert_eq!(out, [0u8; 2]);
    let mut big = [0u8; 3];
    assert_eq!(write_array(&mut big, Ok([1u8, 2, 3])), Ok(3));
    assert_eq!(big, [1, 2, 3]);
}

#[test]
fn write_bytes_code_reports_too_small_and_lengths() {
    let mut out = [0u8; 2];
    assert_eq!(write_bytes_code(&mut out, Ok(vec![1, 2, 3])), codes::TOO_SMALL);
    assert_eq!(out, [0u8; 2]);
    assert_eq!(write_bytes_code(&mut out, Ok(vec![5])), 1);
    assert_eq!(out, [5, 0]);
    assert_eq!(write_bytes_code(&mut out, Err(codes::OUT_OF_BOUNDS)), codes::OUT_OF_BOUNDS);
}

#[test]
fn write_bytes_truncate_fitting_value_is_whole_and_errors_pass_through() {
    let mut out = [0u8; 4];
    assert_eq!(write_bytes_truncate(&mut out, Ok(vec![8, 9])), Ok(2));
    assert_eq!(out, [8, 9, 0, 0]);
    assert_eq!(write_bytes_truncate(&mut out, Err(codes::DOESNT_EXIST)), Err(HookError::DoesntExist));
    assert_eq!(write_bytes_truncate_code(&mut out, Err(codes::TOO_BIG)), codes::TOO_BIG);
}

#[test]
fn as_int64_reads_big_endian_and_refuses_what_does_not_fit() {
    assert_eq!(as_int64_code(Ok(vec![])), 0);
    assert_eq!(as_int64_code(Ok(vec![0x7F, 0, 0, 0, 0, 0, 0, 1])), 0x7F00_0000_0000_0001);
    assert_eq!(as_int64_code(Ok(vec![0x80, 0, 0, 0, 0, 0, 0, 0])), codes::TOO_BIG);
    assert_eq!(as_int64_code(Ok(vec![0; 9])), codes::TOO_BIG);
    assert_eq!(as_int64_code(Err(codes::DOESNT_EXIST)), codes::DOESNT_EXIST);
}

#[test]
fn keylet_result_wraps_the_bytes_or_the_error() {
    let mut raw = [0u8; 34];
    raw[0] = 0x00;
    raw[1] = 0x61;
    raw[33] = 0xFF;
    let k = keylet_result(Ok(raw)).unwrap();
    assert_eq!(k.0, raw);
    assert!(keylet_result(Err(codes::INVALID_ARGUMENT)).is_err());
}

#[test]
fn hook_param_exact_refuses_a_longer_value_the_host_truncates() {
    // Nine bytes held; the host truncates to the five-byte buffer a `[u8; 4]`
    // is read into and reports five.
    let mut out = [0u8; 5];
    let code = write_bytes_truncate_code(&mut out, Ok(vec![1, 2, 3, 4, 5, 6, 7, 8, 9]));
    assert_eq!(code, 5);
    assert_eq!(hook_param_exact::<[u8; 4]>(code, &out), Err(HookError::TooSmall));

    let mut out = [0u8; 5];
    let code = write_bytes_truncate_code(&mut out, Ok(vec![1, 2, 3, 4]));
    assert_eq!(hook_param_exact::<[u8; 4]>(code, &out), Ok([1, 2, 3, 4]));

    let mut out = [0u8; 5];
    let code = write_bytes_truncate_code(&mut out, Ok(vec![1, 2, 3]));
    assert_eq!(hook_param_exact::<[u8; 4]>(code, &out), Err(HookError::TooSmall));
}
