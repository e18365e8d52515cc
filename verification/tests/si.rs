use rshooks::si::{is_valid_name, SiFieldType};
use rshooks::types::{AccountId, CurrencyCode, XFL};

#[test]
fn is_valid_name_accepts_the_worked_example_names() {
    assert!(is_valid_name(b"account"));
    assert!(is_valid_name(b"token"));
    assert!(is_valid_name(b"amount"));
    assert!(is_valid_name(b"updated"));
}

#[test]
fn is_valid_name_rejects_empty_too_long_and_bad_charset() {
    assert!(!is_valid_name(b""));
    assert!(!is_valid_name(b"abcdefghijklmnopq")); // 17 bytes
    assert!(is_valid_name(b"abcdefghijklmnop")); // 16 bytes, ok
    assert!(!is_valid_name(b"my_field")); // underscore
    assert!(!is_valid_name(b"1field")); // leading digit
    assert!(is_valid_name(b"field1")); // trailing digit ok
}

#[test]
fn u8_round_trips_and_reports_type_byte_and_width() {
    assert_eq!(<u8 as SiFieldType>::TYPE_BYTE, 0x10);
    assert_eq!(<u8 as SiFieldType>::WIDTH, 1);
    let mut buf = [0u8; 1];
    0x42u8.write_si(&mut buf);
    assert_eq!(buf, [0x42]);
    assert_eq!(u8::read_si(&buf), 0x42);
}

#[test]
fn u16_encodes_big_endian() {
    assert_eq!(<u16 as SiFieldType>::TYPE_BYTE, 0x01);
    assert_eq!(<u16 as SiFieldType>::WIDTH, 2);
    let mut buf = [0u8; 2];
    0x0102u16.write_si(&mut buf);
    assert_eq!(buf, [0x01, 0x02]);
    assert_eq!(u16::read_si(&buf), 0x0102);
}

#[test]
fn u32_encodes_big_endian_worked_example_token_42() {
    assert_eq!(<u32 as SiFieldType>::TYPE_BYTE, 0x02);
    assert_eq!(<u32 as SiFieldType>::WIDTH, 4);
    let mut buf = [0u8; 4];
    42u32.write_si(&mut buf);
    assert_eq!(buf, [0x00, 0x00, 0x00, 0x2A]);
    assert_eq!(u32::read_si(&buf), 42);
}

#[test]
fn u64_encodes_big_endian_worked_example_amount_1000() {
    assert_eq!(<u64 as SiFieldType>::TYPE_BYTE, 0x03);
    assert_eq!(<u64 as SiFieldType>::WIDTH, 8);
    let mut buf = [0u8; 8];
    1000u64.write_si(&mut buf);
    assert_eq!(buf, [0x00, 0x00, 0x00, 0x00, 0x00, 0x00, 0x03, 0xE8]);
    assert_eq!(u64::read_si(&buf), 1000);
}

#[test]
fn fixed_16_and_32_round_trip_verbatim() {
    let a = [7u8; 16];
    let mut buf = [0u8; 16];
    a.write_si(&mut buf);
    assert_eq!(buf, a);
    assert_eq!(<[u8; 16]>::read_si(&buf), a);

    let b = [9u8; 32];
    let mut buf = [0u8; 32];
    b.write_si(&mut buf);
    assert_eq!(buf, b);
    assert_eq!(<[u8; 32]>::read_si(&buf), b);
}

#[test]
fn hash_round_trips_verbatim() {
    let h = rshooks::types::Hash([1u8; 32]);
    let mut buf = [0u8; 32];
    h.write_si(&mut buf);
    assert_eq!(buf, [1u8; 32]);
    assert_eq!(rshooks::types::Hash::read_si(&buf), h);
}

#[test]
fn account_id_round_trips_verbatim_worked_example() {
    let account: [u8; 20] = [
        0x4B, 0x4E, 0x9C, 0x06, 0xF2, 0x42, 0x96, 0x07, 0x4F, 0x7B, 0xC4, 0x8F, 0x92, 0xA9,
        0x79, 0x16, 0xC6, 0xDC, 0x5E, 0xA9,
    ];
    let id = AccountId(account);
    let mut buf = [0u8; 20];
    id.write_si(&mut buf);
    assert_eq!(buf, account);
    assert_eq!(AccountId::read_si(&buf), id);
}

#[test]
fn fixed_20_round_trips_verbatim() {
    let a = [3u8; 20];
    let mut buf = [0u8; 20];
    a.write_si(&mut buf);
    assert_eq!(buf, a);
    assert_eq!(<[u8; 20]>::read_si(&buf), a);
}

#[test]
fn currency_code_round_trips_verbatim() {
    let c = CurrencyCode([4u8; 20]);
    let mut buf = [0u8; 20];
    c.write_si(&mut buf);
    assert_eq!(buf, [4u8; 20]);
    assert_eq!(CurrencyCode::read_si(&buf), c);
}

#[test]
fn write_si_into_short_buffer_writes_nothing() {
    let mut buf = [0xFFu8; 1];
    0x0102u16.write_si(&mut buf);
    assert_eq!(buf, [0xFF]);
}

#[test]
fn read_si_from_short_buffer_zero_pads_instead_of_panicking() {
    // `bytes` shorter than `WIDTH` never satisfies `bytes.get(..WIDTH)`,
    // so the scratch buffer is left all-zero rather than partially
    // filled — this is the "treated as all-zero padding" case the
    // trait's doc comment describes, not a partial big-endian read.
    assert_eq!(u16::read_si(&[0x01]), 0);
    assert_eq!(u16::read_si(&[]), 0);
}

#[test]
fn xfl_reports_type_byte_and_width() {
    assert_eq!(<XFL as SiFieldType>::TYPE_BYTE, 0x80);
    assert_eq!(<XFL as SiFieldType>::WIDTH, 8);
}

#[test]
fn xfl_one_encodes_big_endian_raw_bits() {
    let one = XFL::from_raw_bits(0x54838D7EA4C68000u64 as i64);
    assert_eq!(one.raw_bits(), 0x54838D7EA4C68000u64 as i64);
    let mut buf = [0u8; 8];
    one.write_si(&mut buf);
    assert_eq!(buf, [0x54, 0x83, 0x8D, 0x7E, 0xA4, 0xC6, 0x80, 0x00]);
    assert_eq!(
        XFL::read_si(&buf).raw_bits(),
        0x54838D7EA4C68000u64 as i64
    );
}

#[test]
fn xfl_zero_round_trips() {
    let zero = XFL::from_raw_bits(0);
    let mut buf = [0xFFu8; 8];
    zero.write_si(&mut buf);
    assert_eq!(buf, [0u8; 8]);
    assert_eq!(XFL::read_si(&buf).raw_bits(), 0);
}

#[test]
fn xfl_write_si_into_short_buffer_writes_nothing() {
    let mut buf = [0xFFu8; 4];
    XFL::from_raw_bits(0x54838D7EA4C68000u64 as i64).write_si(&mut buf);
    assert_eq!(buf, [0xFFu8; 4]);
}

#[test]
fn xfl_read_si_from_short_buffer_zero_pads() {
    assert_eq!(XFL::read_si(&[0x54, 0x83]).raw_bits(), 0);
    assert_eq!(XFL::read_si(&[]).raw_bits(), 0);
}
