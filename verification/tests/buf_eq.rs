use core::cmp::Ordering;
use rshooks::buf_eq::{
    buf_cmp_20, buf_eq_20, buf_eq_32, buf_eq_33, buf_eq_34, buf_eq_40, buf_eq_48, buf_eq_64,
    buf_eq_8,
};

fn check_eq_and_all_single_byte_diffs<const N: usize>(eq: fn(&[u8; N], &[u8; N]) -> bool) {
    let a = [0x5Au8; N];
    let b = a;
    assert!(eq(&a, &b), "identical {N}-byte buffers must compare equal");
    assert_eq!(eq(&a, &b), a == b, "buf_eq_{N} must agree with a == b");

    for i in 0..N {
        let mut diff = a;
        diff[i] ^= 0xFF;
        assert!(!eq(&a, &diff), "single-byte difference at index {i} ({N} bytes) should be detected");
        assert_eq!(eq(&a, &diff), a == diff, "buf_eq_{N} must agree with a == b at index {i}");
    }
}

#[test]
fn buf_eq_8_matches_slice_eq() {
    check_eq_and_all_single_byte_diffs(buf_eq_8);
}

#[test]
fn buf_eq_20_matches_slice_eq() {
    check_eq_and_all_single_byte_diffs(buf_eq_20);
}

#[test]
fn buf_eq_32_matches_slice_eq() {
    check_eq_and_all_single_byte_diffs(buf_eq_32);
}

#[test]
fn buf_eq_33_matches_slice_eq() {
    check_eq_and_all_single_byte_diffs(buf_eq_33);
}

#[test]
fn buf_eq_34_matches_slice_eq() {
    check_eq_and_all_single_byte_diffs(buf_eq_34);
}

#[test]
fn buf_eq_40_matches_slice_eq() {
    check_eq_and_all_single_byte_diffs(buf_eq_40);
}

#[test]
fn buf_eq_48_matches_slice_eq() {
    check_eq_and_all_single_byte_diffs(buf_eq_48);
}

#[test]
fn buf_eq_64_matches_slice_eq() {
    check_eq_and_all_single_byte_diffs(buf_eq_64);
}

#[test]
fn buf_eq_20_detects_difference_at_every_position() {
    let a = [0u8; 20];
    for i in 0..20 {
        let mut b = a;
        if let Some(byte) = b.get_mut(i) {
            *byte = 1;
        }
        assert!(
            !buf_eq_20(&a, &b),
            "difference at index {i} should be detected"
        );
    }
}

#[test]
fn buf_eq_8_basic() {
    assert!(buf_eq_8(
        &[1, 2, 3, 4, 5, 6, 7, 8],
        &[1, 2, 3, 4, 5, 6, 7, 8]
    ));
    assert!(!buf_eq_8(
        &[1, 2, 3, 4, 5, 6, 7, 8],
        &[1, 2, 3, 4, 5, 6, 7, 9]
    ));
}

#[test]
fn buf_eq_32_basic() {
    let a = [0xABu8; 32];
    let mut b = a;
    assert!(buf_eq_32(&a, &b));
    b[31] = 0xAC;
    assert!(!buf_eq_32(&a, &b));
}

#[test]
fn buf_eq_33_basic() {
    let a = [0x11u8; 33];
    let mut b = a;
    assert!(buf_eq_33(&a, &b));
    b[0] = 0x12;
    assert!(!buf_eq_33(&a, &b));
}

#[test]
fn buf_eq_34_basic() {
    let a = [0x22u8; 34];
    let mut b = a;
    assert!(buf_eq_34(&a, &b));
    b[17] = 0x23;
    assert!(!buf_eq_34(&a, &b));
}

#[test]
fn buf_eq_40_basic() {
    let a = [0x44u8; 40];
    let mut b = a;
    assert!(buf_eq_40(&a, &b));
    b[39] = 0x45;
    assert!(!buf_eq_40(&a, &b));
}

#[test]
fn buf_eq_48_basic() {
    let a = [0x33u8; 48];
    let mut b = a;
    assert!(buf_eq_48(&a, &b));
    b[47] = 0x34;
    assert!(!buf_eq_48(&a, &b));
}

#[test]
fn buf_eq_64_basic() {
    let a = [0x55u8; 64];
    let mut b = a;
    assert!(buf_eq_64(&a, &b));
    b[63] = 0x56;
    assert!(!buf_eq_64(&a, &b));
}

#[test]
fn buf_cmp_20_equal_buffers() {
    let a = [0x5Au8; 20];
    let b = a;
    assert_eq!(buf_cmp_20(&a, &b), Ordering::Equal);
    assert_eq!(buf_cmp_20(&a, &b), a.cmp(&b));
}

#[test]
fn buf_cmp_20_agrees_with_array_ord_at_every_position() {
    let a = [0x5Au8; 20];
    for i in 0..20 {
        // a < b: bump byte i up (avoid overflow).
        let mut lo = a;
        lo[i] = 0x5B;
        assert_eq!(
            buf_cmp_20(&a, &lo),
            a.cmp(&lo),
            "buf_cmp_20 must agree with [u8; 20]::cmp at index {i} (a<b)"
        );
        assert_eq!(buf_cmp_20(&a, &lo), Ordering::Less);

        // a > b: bump byte i down.
        let mut hi = a;
        hi[i] = 0x59;
        assert_eq!(
            buf_cmp_20(&a, &hi),
            a.cmp(&hi),
            "buf_cmp_20 must agree with [u8; 20]::cmp at index {i} (a>b)"
        );
        assert_eq!(buf_cmp_20(&a, &hi), Ordering::Greater);
    }
}

/// Only the first differing byte decides, whatever later bytes say.
#[test]
fn buf_cmp_20_first_differing_word_wins_even_when_later_words_disagree() {
    let mut a = [0x5Au8; 20];
    let mut b = [0x5Au8; 20];

    // a's leading word is smaller, a's trailing word is larger.
    a[0] = 0x10;
    b[0] = 0x20;
    a[19] = 0xFF;
    b[19] = 0x00;
    assert_eq!(buf_cmp_20(&a, &b), Ordering::Less);
    assert_eq!(buf_cmp_20(&a, &b), a.cmp(&b));

    // Mirror image: a's leading word is larger, a's trailing word is
    // smaller.
    let mut c = [0x5Au8; 20];
    let mut d = [0x5Au8; 20];
    c[0] = 0x20;
    d[0] = 0x10;
    c[19] = 0x00;
    d[19] = 0xFF;
    assert_eq!(buf_cmp_20(&c, &d), Ordering::Greater);
    assert_eq!(buf_cmp_20(&c, &d), c.cmp(&d));
}
