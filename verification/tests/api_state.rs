use rshooks::api::state::{
    state_exact, state_foreign_u64_le, state_i64, state_set_i64, state_set_u32, state_set_xfl,
    state_u32, state_u64_le, state_update_i64, state_update_u32, state_update_u64,
    state_update_u64_bytes, state_update_written, state_update_xfl, state_xfl, value_or_absent, ForeignRef,
};
use rshooks::codes;
use rshooks::convert::{FromBytes, ToBytes};
use rshooks::error::{res, HookError};
use rshooks::testenv_bridge::as_int64_code;
use rshooks::types::{AccountId, NameSpace, XFL};

#[test]
fn api_state_smoke_not_implemented_on_host() {
    let n = codes::NOT_IMPLEMENTED;
    let buf = [0u8; 8];
    assert_eq!(state_foreign_u64_le(n, &buf), Err(HookError::NotImplemented));
    assert_eq!(state_u64_le(n, &buf), Err(HookError::NotImplemented));
    assert_eq!(state_exact::<[u8; 8]>(n, &buf), Err(HookError::NotImplemented));
    assert_eq!(state_u32(n, &[0u8; 4]), Err(HookError::NotImplemented));
    assert_eq!(state_i64(n, &buf), Err(HookError::NotImplemented));
    assert!(matches!(state_xfl(n, &buf), Err(HookError::NotImplemented)));
    assert_eq!(state_update_u64(n, |cur| cur.unwrap_or(0) + 1), Err(HookError::NotImplemented));
    assert_eq!(state_update_u32(n, &[0u8; 4], |cur| cur.unwrap_or(0) + 1), Err(HookError::NotImplemented));
    assert_eq!(state_update_i64(n, &buf, |cur| cur.unwrap_or(0) + 1), Err(HookError::NotImplemented));
    assert!(matches!(
        state_update_xfl(n, &buf, |cur| cur.unwrap_or(XFL::one())),
        Err(HookError::NotImplemented)
    ));
}

#[test]
fn foreign_ref_resolves_present_and_absent() {
    let bytes = [1u8, 2, 3];
    let some: Option<&[u8]> = Some(&bytes);
    let none: Option<&[u8]> = None;
    assert_eq!(some.foreign_ref(), Some(bytes.as_slice()));
    assert_eq!(none.foreign_ref(), None);
    assert_eq!((&bytes).foreign_ref(), Some(bytes.as_slice()));
    let account = AccountId([9u8; 20]);
    assert_eq!((&account).foreign_ref(), Some(&[9u8; 20][..]));
    let ns = NameSpace([4u8; 32]);
    assert_eq!((&ns).foreign_ref(), Some(&[4u8; 32][..]));
}

#[test]
fn value_or_absent_distinguishes_doesnt_exist_from_real_errors() {
    let decode = |code: i64| res(code).map(|v| v as u64);
    assert_eq!(value_or_absent(7, decode), Ok(Some(7u64)));
    assert_eq!(value_or_absent(codes::DOESNT_EXIST, decode), Ok(None));
    assert_eq!(value_or_absent(codes::NOT_IMPLEMENTED, decode), Err(HookError::NotImplemented));
    assert_eq!(value_or_absent(codes::TOO_BIG, decode), Err(HookError::TooBig));
}

#[test]
fn state_u64_le_agrees_with_the_typed_le_layer() {
    let value: u64 = 0x0102_0304_0506_0708;
    let mut buf = [0u8; 8];
    assert_eq!(value.write(&mut buf), 8);

    assert_eq!(u64::from_le_bytes(buf), value);
    assert_eq!(u64::read(&buf), Ok(value));
    assert_eq!(state_u64_le(8, &buf), Ok(value));
}

#[test]
fn single_value_helpers_round_trip_little_endian() {
    assert_eq!(state_u32(4, &state_set_u32(0xDEAD_BEEF)), Ok(0xDEAD_BEEF));
    assert_eq!(state_i64(8, &state_set_i64(-5)), Ok(-5));
    assert_eq!(state_xfl(8, &state_set_xfl(XFL::one())).map(XFL::raw_bits), Ok(XFL::one().raw_bits()));
    assert_eq!(state_u32(3, &[0u8; 4]), Err(HookError::TooSmall));
}

#[test]
fn updates_apply_f_to_the_read_value() {
    assert_eq!(state_update_u64(5, |cur| cur.unwrap_or(0) + 1), Ok(6));
    assert_eq!(state_update_u64(codes::DOESNT_EXIST, |cur| cur.unwrap_or(0) + 1), Ok(1));
    assert_eq!(state_update_u64_bytes(6), 6u64.to_be_bytes());
    assert_eq!(state_update_u32(4, &2u32.to_le_bytes(), |cur| cur.unwrap_or(0) * 10), Ok(20));
    assert_eq!(state_update_u32(codes::DOESNT_EXIST, &[0u8; 4], |cur| cur.unwrap_or(9)), Ok(9));
    assert_eq!(state_update_i64(7, &[0u8; 8], |cur| cur.unwrap_or(0)), Err(HookError::TooSmall));
}

#[test]
fn foreign_u64_le_needs_exactly_eight_bytes() {
    let mut raw = [0u8; 8];
    raw[..3].copy_from_slice(&[1, 2, 3]);
    assert_eq!(state_foreign_u64_le(3, &raw), Err(HookError::TooSmall));
    let raw = 0x0807_0605_0403_0201u64.to_le_bytes();
    assert_eq!(state_foreign_u64_le(8, &raw), Ok(0x0807_0605_0403_0201));
    assert_eq!(state_foreign_u64_le(codes::DOESNT_EXIST, &raw), Err(HookError::DoesntExist));
}

#[test]
fn update_returns_the_value_only_once_it_is_written() {
    assert_eq!(state_update_written(7u64, 8), Ok(7));
    assert_eq!(state_update_written(7u64, 0), Ok(7));
    assert_eq!(state_update_written(7u64, codes::TOO_MANY_STATE_MODIFICATIONS), Err(HookError::TooManyStateModifications));
}

#[test]
fn a_u64_written_back_reads_back_in_as_int64_mode() {
    let n = 0x0102_0304_0506_0708u64;
    let bytes = state_update_u64_bytes(n);
    assert_eq!(res(as_int64_code(Ok(bytes.to_vec()))).map(|v| v as u64), Ok(n));
}
