use rshooks::convert::{FixedRead, FromBytes, ToBytes, TypedParamName};
use rshooks::error::{HookError, Result};
use rshooks::types::XFL;

#[test]
fn u8_round_trips() {
    let mut buf = [0u8; 1];
    assert_eq!(0xABu8.write(&mut buf), 1);
    assert_eq!(buf, [0xAB]);
    assert_eq!(u8::read(&buf), Ok(0xABu8));
}

#[test]
fn u8_write_into_empty_buffer_writes_nothing() {
    let mut buf: [u8; 0] = [];
    assert_eq!(0xABu8.write(&mut buf), 0);
}

#[test]
fn u8_read_from_empty_buffer_fails() {
    assert_eq!(u8::read(&[]), Err(HookError::TooSmall));
}

#[test]
fn u16_round_trips() {
    let mut buf = [0u8; 2];
    assert_eq!(0x0102u16.write(&mut buf), 2);
    assert_eq!(buf, 0x0102u16.to_le_bytes());
    assert_eq!(u16::read(&buf), Ok(0x0102u16));
}

#[test]
fn u16_write_into_short_buffer_writes_nothing() {
    let mut buf = [0xFFu8; 1];
    assert_eq!(0x0102u16.write(&mut buf), 0);
    assert_eq!(buf, [0xFF]);
}

#[test]
fn u16_read_from_short_buffer_fails() {
    assert_eq!(u16::read(&[0u8; 1]), Err(HookError::TooSmall));
}

#[test]
fn u32_round_trips() {
    let mut buf = [0u8; 4];
    assert_eq!(42u32.write(&mut buf), 4);
    assert_eq!(buf, 42u32.to_le_bytes());
    assert_eq!(u32::read(&buf), Ok(42u32));
}

#[test]
fn u32_write_into_short_buffer_writes_nothing() {
    let mut buf = [0xFFu8; 3];
    assert_eq!(42u32.write(&mut buf), 0);
    assert_eq!(buf, [0xFF, 0xFF, 0xFF]);
}

#[test]
fn u32_read_from_short_buffer_fails() {
    assert_eq!(u32::read(&[0u8; 3]), Err(HookError::TooSmall));
}

#[test]
fn u64_round_trips() {
    let mut buf = [0u8; 8];
    assert_eq!(0x0102_0304_0506_0708u64.write(&mut buf), 8);
    assert_eq!(u64::read(&buf), Ok(0x0102_0304_0506_0708u64));
}

#[test]
fn i64_round_trips() {
    let mut buf = [0u8; 8];
    assert_eq!((-1i64).write(&mut buf), 8);
    assert_eq!(i64::read(&buf), Ok(-1i64));
}

#[test]
fn fixed_array_round_trips() {
    let value = [1u8, 2, 3, 4, 5];
    let mut buf = [0u8; 5];
    assert_eq!(value.write(&mut buf), 5);
    assert_eq!(buf, value);
    assert_eq!(<[u8; 5]>::read(&buf), Ok(value));
}

#[test]
fn xfl_round_trips_bit_pattern() {
    let value = XFL::from_raw_bits(0x1234_5678_9ABC_DEF0);
    let mut buf = [0u8; 8];
    assert_eq!(value.write(&mut buf), 8);
    assert_eq!(XFL::read(&buf).map(XFL::raw_bits), Ok(0x1234_5678_9ABC_DEF0i64));
}

// A reader hands `read_exact` what it reported and the buffer it wrote.

#[test]
fn fixed_read_array_succeeds_on_exact_write() {
    let result: Result<[u8; 4]> = <[u8; 4]>::read_exact(Ok(4), &[1, 2, 3, 4]);
    assert_eq!(result, Ok([1, 2, 3, 4]));
}

#[test]
fn fixed_read_array_rejects_short_write() {
    let result: Result<[u8; 4]> = <[u8; 4]>::read_exact(Ok(3), &[0u8; 4]);
    assert_eq!(result, Err(HookError::TooSmall));
}

#[test]
fn fixed_read_array_propagates_read_error() {
    let result: Result<[u8; 4]> = <[u8; 4]>::read_exact(Err(HookError::InternalError), &[0u8; 4]);
    assert_eq!(result, Err(HookError::InternalError));
}

#[test]
fn fixed_read_passes_a_buffer_of_exactly_n_bytes() {
    assert_eq!(<[u8; 7] as FixedRead>::READ_LEN, 7);
    let buf = [0u8; <[u8; 7] as FixedRead>::READ_LEN];
    assert_eq!(buf.len(), 7);
    let _: Result<[u8; 7]> = <[u8; 7]>::read_exact(Ok(buf.len()), &buf);
}

#[test]
fn xfl_fixed_read_succeeds_on_exact_write() {
    let bits = 0x1234_5678_9ABC_DEF0i64;
    let result: Result<XFL> = XFL::read_exact(Ok(8), &bits.to_le_bytes());
    assert_eq!(result.map(XFL::raw_bits), Ok(bits));
}

#[test]
fn xfl_fixed_read_rejects_short_write() {
    let result: Result<XFL> = XFL::read_exact(Ok(7), &[0u8; 8]);
    assert_eq!(result, Err(HookError::TooSmall));
}

#[test]
fn xfl_fixed_read_propagates_read_error() {
    let result: Result<XFL> = XFL::read_exact(Err(HookError::InternalError), &[0u8; 8]);
    assert_eq!(result, Err(HookError::InternalError));
}

struct Tag(u8);

impl ToBytes for Tag {
    const MAX_LEN: usize = 1;

    fn write(&self, buf: &mut [u8]) -> usize {
        self.0.write(buf)
    }
}

impl TypedParamName for Tag {
    type Value = [u8; 4];
}

#[test]
fn typed_param_name_bytes_are_the_encoding() {
    assert_eq!(Tag(7).name_bytes(), vec![7u8]);
    assert_eq!(<u16 as ToBytes>::MAX_LEN, 2);
    assert_eq!(<[u8; 9] as ToBytes>::MAX_LEN, 9);
}

#[test]
fn write_front_writes_only_when_it_fits() {
    let mut buf = [9u8; 3];
    assert_eq!(rshooks::convert::write_front(&mut buf, &[1, 2]), 2);
    assert_eq!(buf, [1, 2, 9]);
    assert_eq!(rshooks::convert::write_front(&mut buf, &[5, 5, 5, 5]), 0);
    assert_eq!(buf, [1, 2, 9]);
}
