use rshooks::api::sto::{
    range_from_packed, sto_subarray_range, sto_subarray_slice, sto_subfield_range,
    sto_subfield_slice, sto_validate, unpack_sub,
};
use rshooks::codes;
use rshooks::error::HookError;

#[test]
fn sto_smoke_not_implemented_on_host() {
    let sto = [0u8; 4];
    let n = codes::NOT_IMPLEMENTED;
    assert_eq!(sto_validate(n), Err(HookError::NotImplemented));
    assert_eq!(sto_subfield_range(n), Err(HookError::NotImplemented));
    assert_eq!(sto_subarray_range(n), Err(HookError::NotImplemented));
    assert_eq!(sto_subfield_slice(&sto, n), Err(HookError::NotImplemented));
    assert_eq!(sto_subarray_slice(&sto, n), Err(HookError::NotImplemented));
}

#[test]
fn unpack_sub_matches_c_macros() {
    assert_eq!(unpack_sub(0), (0, 0));
    let packed = (5i64 << 32) | 12i64;
    assert_eq!(unpack_sub(packed), (5, 12));
    let packed_big = (0x1234i64 << 32) | 0x5678i64;
    assert_eq!(unpack_sub(packed_big), (0x1234, 0x5678));
}

#[test]
fn range_from_packed_rejects_negative_components() {
    let negative_length = 0x8000_0000i64; // offset 0, length -2147483648
    assert_eq!(range_from_packed(negative_length), Err(HookError::ParseError));
    let packed = (3i64 << 32) | 4i64;
    assert_eq!(range_from_packed(packed), Ok((3usize, 4usize)));
}

#[test]
fn slice_helpers_use_get_not_indexing() {
    let data = [1u8, 2, 3, 4, 5];
    let expected: &[u8] = &[2, 3];
    assert_eq!(data.get(1..3).ok_or(HookError::OutOfBounds), Ok(expected));
    assert_eq!(data.get(4..10).ok_or(HookError::OutOfBounds), Err(HookError::OutOfBounds));
    assert_eq!(sto_subfield_slice(&data, (1i64 << 32) | 2), Ok(expected));
    assert_eq!(sto_subarray_slice(&data, (4i64 << 32) | 6), Err(HookError::OutOfBounds));
}

#[test]
fn validate_reports_the_host_verdict() {
    assert_eq!(sto_validate(1), Ok(true));
    assert_eq!(sto_validate(0), Ok(false));
}
