//! Fixed-width integer <-> byte conversions, little- and big-endian, with
//! their byte-sequence specifications and round-trip proofs.

use vstd::prelude::*;

verus! {

/// The 2 little-endian bytes of `v`.
pub open spec fn le_u16(v: u16) -> Seq<u8> {
    seq![v as u8, (v >> 8) as u8]
}

/// The 2 big-endian bytes of `v`.
pub open spec fn be_u16(v: u16) -> Seq<u8> {
    seq![(v >> 8) as u8, v as u8]
}

/// The `u16` whose little-endian bytes are `s[0..2]`.
pub open spec fn u16_of_le(s: Seq<u8>) -> u16 {
    (s[0] as u16) | ((s[1] as u16) << 8)
}

/// The `u16` whose big-endian bytes are `s[0..2]`.
pub open spec fn u16_of_be(s: Seq<u8>) -> u16 {
    ((s[0] as u16) << 8) | (s[1] as u16)
}

/// Little-endian encoding of `v`.
pub fn u16_to_le(v: u16) -> (r: [u8; 2])
    ensures
        r@ == le_u16(v),
{
    let r = [v as u8, (v >> 8) as u8];
    assert(r@ =~= le_u16(v));
    r
}

/// Big-endian encoding of `v`.
pub fn u16_to_be(v: u16) -> (r: [u8; 2])
    ensures
        r@ == be_u16(v),
{
    let r = [(v >> 8) as u8, v as u8];
    assert(r@ =~= be_u16(v));
    r
}

/// Decodes the first 2 bytes of `b`, little-endian.
pub fn u16_from_le(b: &[u8]) -> (v: u16)
    requires
        b@.len() >= 2,
    ensures
        v == u16_of_le(b@),
{
    (b[0] as u16) | ((b[1] as u16) << 8)
}

/// Decodes the first 2 bytes of `b`, big-endian.
pub fn u16_from_be(b: &[u8]) -> (v: u16)
    requires
        b@.len() >= 2,
    ensures
        v == u16_of_be(b@),
{
    ((b[0] as u16) << 8) | (b[1] as u16)
}

/// Decoding the little-endian bytes of `v` gives back `v`; encoding what was
/// decoded gives back the bytes.
pub proof fn lemma_u16_le_round_trip(v: u16, s: Seq<u8>)
    requires
        s.len() == 2,
    ensures
        u16_of_le(le_u16(v)) == v,
        le_u16(u16_of_le(s)) =~= s,
{
    let e = le_u16(v);
    let x0 = e[0];
    let x1 = e[1];
    assert((x0 as u16) | ((x1 as u16) << 8) == v) by (bit_vector)
        requires
            x0 == v as u8, x1 == (v >> 8) as u8;
    let y0 = s[0];
    let y1 = s[1];
    let w: u16 = (y0 as u16) | ((y1 as u16) << 8);
    assert(w as u8 == y0 && (w >> 8) as u8 == y1) by (bit_vector)
        requires
            w == (y0 as u16) | ((y1 as u16) << 8);
}

/// Decoding the big-endian bytes of `v` gives back `v`; encoding what was
/// decoded gives back the bytes.
pub proof fn lemma_u16_be_round_trip(v: u16, s: Seq<u8>)
    requires
        s.len() == 2,
    ensures
        u16_of_be(be_u16(v)) == v,
        be_u16(u16_of_be(s)) =~= s,
{
    let e = be_u16(v);
    let x0 = e[0];
    let x1 = e[1];
    assert(((x0 as u16) << 8) | (x1 as u16) == v) by (bit_vector)
        requires
            x0 == (v >> 8) as u8, x1 == v as u8;
    let y0 = s[0];
    let y1 = s[1];
    let w: u16 = ((y0 as u16) << 8) | (y1 as u16);
    assert((w >> 8) as u8 == y0 && w as u8 == y1) by (bit_vector)
        requires
            w == ((y0 as u16) << 8) | (y1 as u16);
}

/// The 4 little-endian bytes of `v`.
pub open spec fn le_u32(v: u32) -> Seq<u8> {
    seq![v as u8, (v >> 8) as u8, (v >> 16) as u8, (v >> 24) as u8]
}

/// The 4 big-endian bytes of `v`.
pub open spec fn be_u32(v: u32) -> Seq<u8> {
    seq![(v >> 24) as u8, (v >> 16) as u8, (v >> 8) as u8, v as u8]
}

/// The `u32` whose little-endian bytes are `s[0..4]`.
pub open spec fn u32_of_le(s: Seq<u8>) -> u32 {
    (s[0] as u32) | ((s[1] as u32) << 8) | ((s[2] as u32) << 16) | ((s[3] as u32) << 24)
}

/// The `u32` whose big-endian bytes are `s[0..4]`.
pub open spec fn u32_of_be(s: Seq<u8>) -> u32 {
    ((s[0] as u32) << 24) | ((s[1] as u32) << 16) | ((s[2] as u32) << 8) | (s[3] as u32)
}

/// Little-endian encoding of `v`.
pub fn u32_to_le(v: u32) -> (r: [u8; 4])
    ensures
        r@ == le_u32(v),
{
    let r = [v as u8, (v >> 8) as u8, (v >> 16) as u8, (v >> 24) as u8];
    assert(r@ =~= le_u32(v));
    r
}

/// Big-endian encoding of `v`.
pub fn u32_to_be(v: u32) -> (r: [u8; 4])
    ensures
        r@ == be_u32(v),
{
    let r = [(v >> 24) as u8, (v >> 16) as u8, (v >> 8) as u8, v as u8];
    assert(r@ =~= be_u32(v));
    r
}

/// Decodes the first 4 bytes of `b`, little-endian.
pub fn u32_from_le(b: &[u8]) -> (v: u32)
    requires
        b@.len() >= 4,
    ensures
        v == u32_of_le(b@),
{
    (b[0] as u32) | ((b[1] as u32) << 8) | ((b[2] as u32) << 16) | ((b[3] as u32) << 24)
}

/// Decodes the first 4 bytes of `b`, big-endian.
pub fn u32_from_be(b: &[u8]) -> (v: u32)
    requires
        b@.len() >= 4,
    ensures
        v == u32_of_be(b@),
{
    ((b[0] as u32) << 24) | ((b[1] as u32) << 16) | ((b[2] as u32) << 8) | (b[3] as u32)
}

/// Decoding the little-endian bytes of `v` gives back `v`; encoding what was
/// decoded gives back the bytes.
pub proof fn lemma_u32_le_round_trip(v: u32, s: Seq<u8>)
    requires
        s.len() == 4,
    ensures
        u32_of_le(le_u32(v)) == v,
        le_u32(u32_of_le(s)) =~= s,
{
    let e = le_u32(v);
    let x0 = e[0];
    let x1 = e[1];
    let x2 = e[2];
    let x3 = e[3];
    assert((x0 as u32) | ((x1 as u32) << 8) | ((x2 as u32) << 16) | ((x3 as u32) << 24) == v) by (bit_vector)
        requires
            x0 == v as u8, x1 == (v >> 8) as u8, x2 == (v >> 16) as u8, x3 == (v >> 24) as u8;
    let y0 = s[0];
    let y1 = s[1];
    let y2 = s[2];
    let y3 = s[3];
    let w: u32 = (y0 as u32) | ((y1 as u32) << 8) | ((y2 as u32) << 16) | ((y3 as u32) << 24);
    assert(w as u8 == y0 && (w >> 8) as u8 == y1 && (w >> 16) as u8 == y2 && (w >> 24) as u8 == y3) by (bit_vector)
        requires
            w == (y0 as u32) | ((y1 as u32) << 8) | ((y2 as u32) << 16) | ((y3 as u32) << 24);
}

/// Decoding the big-endian bytes of `v` gives back `v`; encoding what was
/// decoded gives back the bytes.
pub proof fn lemma_u32_be_round_trip(v: u32, s: Seq<u8>)
    requires
        s.len() == 4,
    ensures
        u32_of_be(be_u32(v)) == v,
        be_u32(u32_of_be(s)) =~= s,
{
    let e = be_u32(v);
    let x0 = e[0];
    let x1 = e[1];
    let x2 = e[2];
    let x3 = e[3];
    assert(((x0 as u32) << 24) | ((x1 as u32) << 16) | ((x2 as u32) << 8) | (x3 as u32) == v) by (bit_vector)
        requires
            x0 == (v >> 24) as u8, x1 == (v >> 16) as u8, x2 == (v >> 8) as u8, x3 == v as u8;
    let y0 = s[0];
    let y1 = s[1];
    let y2 = s[2];
    let y3 = s[3];
    let w: u32 = ((y0 as u32) << 24) | ((y1 as u32) << 16) | ((y2 as u32) << 8) | (y3 as u32);
    assert((w >> 24) as u8 == y0 && (w >> 16) as u8 == y1 && (w >> 8) as u8 == y2 && w as u8 == y3) by (bit_vector)
        requires
            w == ((y0 as u32) << 24) | ((y1 as u32) << 16) | ((y2 as u32) << 8) | (y3 as u32);
}

/// The 8 little-endian bytes of `v`.
pub open spec fn le_u64(v: u64) -> Seq<u8> {
    seq![v as u8, (v >> 8) as u8, (v >> 16) as u8, (v >> 24) as u8, (v >> 32) as u8, (v >> 40) as u8, (v >> 48) as u8, (v >> 56) as u8]
}

/// The 8 big-endian bytes of `v`.
pub open spec fn be_u64(v: u64) -> Seq<u8> {
    seq![(v >> 56) as u8, (v >> 48) as u8, (v >> 40) as u8, (v >> 32) as u8, (v >> 24) as u8, (v >> 16) as u8, (v >> 8) as u8, v as u8]
}

/// The `u64` whose little-endian bytes are `s[0..8]`.
pub open spec fn u64_of_le(s: Seq<u8>) -> u64 {
    (s[0] as u64) | ((s[1] as u64) << 8) | ((s[2] as u64) << 16) | ((s[3] as u64) << 24) | ((s[4] as u64) << 32) | ((s[5] as u64) << 40) | ((s[6] as u64) << 48) | ((s[7] as u64) << 56)
}

/// The `u64` whose big-endian bytes are `s[0..8]`.
pub open spec fn u64_of_be(s: Seq<u8>) -> u64 {
    ((s[0] as u64) << 56) | ((s[1] as u64) << 48) | ((s[2] as u64) << 40) | ((s[3] as u64) << 32) | ((s[4] as u64) << 24) | ((s[5] as u64) << 16) | ((s[6] as u64) << 8) | (s[7] as u64)
}

/// Little-endian encoding of `v`.
pub fn u64_to_le(v: u64) -> (r: [u8; 8])
    ensures
        r@ == le_u64(v),
{
    let r = [v as u8, (v >> 8) as u8, (v >> 16) as u8, (v >> 24) as u8, (v >> 32) as u8, (v >> 40) as u8, (v >> 48) as u8, (v >> 56) as u8];
    assert(r@ =~= le_u64(v));
    r
}

/// Big-endian encoding of `v`.
pub fn u64_to_be(v: u64) -> (r: [u8; 8])
    ensures
        r@ == be_u64(v),
{
    let r = [(v >> 56) as u8, (v >> 48) as u8, (v >> 40) as u8, (v >> 32) as u8, (v >> 24) as u8, (v >> 16) as u8, (v >> 8) as u8, v as u8];
    assert(r@ =~= be_u64(v));
    r
}

/// Decodes the first 8 bytes of `b`, little-endian.
pub fn u64_from_le(b: &[u8]) -> (v: u64)
    requires
        b@.len() >= 8,
    ensures
        v == u64_of_le(b@),
{
    (b[0] as u64) | ((b[1] as u64) << 8) | ((b[2] as u64) << 16) | ((b[3] as u64) << 24) | ((b[4] as u64) << 32) | ((b[5] as u64) << 40) | ((b[6] as u64) << 48) | ((b[7] as u64) << 56)
}

/// Decodes the first 8 bytes of `b`, big-endian.
pub fn u64_from_be(b: &[u8]) -> (v: u64)
    requires
        b@.len() >= 8,
    ensures
        v == u64_of_be(b@),
{
    ((b[0] as u64) << 56) | ((b[1] as u64) << 48) | ((b[2] as u64) << 40) | ((b[3] as u64) << 32) | ((b[4] as u64) << 24) | ((b[5] as u64) << 16) | ((b[6] as u64) << 8) | (b[7] as u64)
}

/// Decoding the little-endian bytes of `v` gives back `v`; encoding what was
/// decoded gives back the bytes.
pub proof fn lemma_u64_le_round_trip(v: u64, s: Seq<u8>)
    requires
        s.len() == 8,
    ensures
        u64_of_le(le_u64(v)) == v,
        le_u64(u64_of_le(s)) =~= s,
{
    let e = le_u64(v);
    let x0 = e[0];
    let x1 = e[1];
    let x2 = e[2];
    let x3 = e[3];
    let x4 = e[4];
    let x5 = e[5];
    let x6 = e[6];
    let x7 = e[7];
    assert((x0 as u64) | ((x1 as u64) << 8) | ((x2 as u64) << 16) | ((x3 as u64) << 24) | ((x4 as u64) << 32) | ((x5 as u64) << 40) | ((x6 as u64) << 48) | ((x7 as u64) << 56) == v) by (bit_vector)
        requires
            x0 == v as u8, x1 == (v >> 8) as u8, x2 == (v >> 16) as u8, x3 == (v >> 24) as u8, x4 == (v >> 32) as u8, x5 == (v >> 40) as u8, x6 == (v >> 48) as u8, x7 == (v >> 56) as u8;
    let y0 = s[0];
    let y1 = s[1];
    let y2 = s[2];
    let y3 = s[3];
    let y4 = s[4];
    let y5 = s[5];
    let y6 = s[6];
    let y7 = s[7];
    let w: u64 = (y0 as u64) | ((y1 as u64) << 8) | ((y2 as u64) << 16) | ((y3 as u64) << 24) | ((y4 as u64) << 32) | ((y5 as u64) << 40) | ((y6 as u64) << 48) | ((y7 as u64) << 56);
    assert(w as u8 == y0 && (w >> 8) as u8 == y1 && (w >> 16) as u8 == y2 && (w >> 24) as u8 == y3 && (w >> 32) as u8 == y4 && (w >> 40) as u8 == y5 && (w >> 48) as u8 == y6 && (w >> 56) as u8 == y7) by (bit_vector)
        requires
            w == (y0 as u64) | ((y1 as u64) << 8) | ((y2 as u64) << 16) | ((y3 as u64) << 24) | ((y4 as u64) << 32) | ((y5 as u64) << 40) | ((y6 as u64) << 48) | ((y7 as u64) << 56);
}

/// Decoding the big-endian bytes of `v` gives back `v`; encoding what was
/// decoded gives back the bytes.
pub proof fn lemma_u64_be_round_trip(v: u64, s: Seq<u8>)
    requires
        s.len() == 8,
    ensures
        u64_of_be(be_u64(v)) == v,
        be_u64(u64_of_be(s)) =~= s,
{
    let e = be_u64(v);
    let x0 = e[0];
    let x1 = e[1];
    let x2 = e[2];
    let x3 = e[3];
    let x4 = e[4];
    let x5 = e[5];
    let x6 = e[6];
    let x7 = e[7];
    assert(((x0 as u64) << 56) | ((x1 as u64) << 48) | ((x2 as u64) << 40) | ((x3 as u64) << 32) | ((x4 as u64) << 24) | ((x5 as u64) << 16) | ((x6 as u64) << 8) | (x7 as u64) == v) by (bit_vector)
        requires
            x0 == (v >> 56) as u8, x1 == (v >> 48) as u8, x2 == (v >> 40) as u8, x3 == (v >> 32) as u8, x4 == (v >> 24) as u8, x5 == (v >> 16) as u8, x6 == (v >> 8) as u8, x7 == v as u8;
    let y0 = s[0];
    let y1 = s[1];
    let y2 = s[2];
    let y3 = s[3];
    let y4 = s[4];
    let y5 = s[5];
    let y6 = s[6];
    let y7 = s[7];
    let w: u64 = ((y0 as u64) << 56) | ((y1 as u64) << 48) | ((y2 as u64) << 40) | ((y3 as u64) << 32) | ((y4 as u64) << 24) | ((y5 as u64) << 16) | ((y6 as u64) << 8) | (y7 as u64);
    assert((w >> 56) as u8 == y0 && (w >> 48) as u8 == y1 && (w >> 40) as u8 == y2 && (w >> 32) as u8 == y3 && (w >> 24) as u8 == y4 && (w >> 16) as u8 == y5 && (w >> 8) as u8 == y6 && w as u8 == y7) by (bit_vector)
        requires
            w == ((y0 as u64) << 56) | ((y1 as u64) << 48) | ((y2 as u64) << 40) | ((y3 as u64) << 32) | ((y4 as u64) << 24) | ((y5 as u64) << 16) | ((y6 as u64) << 8) | (y7 as u64);
}

/// Reinterpreting an `i64` as a `u64` and back gives the same `i64`.
pub proof fn lemma_i64_bits_round_trip(v: i64)
    ensures
        (v as u64) as i64 == v,
{
    assert((v as u64) as i64 == v) by (bit_vector);
}

/// The big-endian value of two bytes.
pub open spec fn be_value2(s: Seq<u8>) -> int {
    s[0] * 0x100 + s[1]
}

/// The big-endian value of four bytes.
pub open spec fn be_value4(s: Seq<u8>) -> int {
    s[0] * 0x1000000 + s[1] * 0x10000 + s[2] * 0x100 + s[3]
}

/// The big-endian value of eight bytes.
pub open spec fn be_value8(s: Seq<u8>) -> int {
    s[0] * 0x100000000000000 + s[1] * 0x1000000000000 + s[2] * 0x10000000000 + s[3] * 0x100000000
        + s[4] * 0x1000000 + s[5] * 0x10000 + s[6] * 0x100 + s[7]
}

/// Reading two bytes big-endian gives their positional value.
pub proof fn lemma_u16_of_be_value(s: Seq<u8>)
    requires
        s.len() >= 2,
    ensures
        u16_of_be(s) as int == be_value2(s),
{
    let y0 = s[0];
    let y1 = s[1];
    assert((((y0 as u16) << 8) | (y1 as u16)) as int == y0 * 0x100 + y1) by (bit_vector);
}

/// Reading four bytes big-endian gives their positional value.
pub proof fn lemma_u32_of_be_value(s: Seq<u8>)
    requires
        s.len() >= 4,
    ensures
        u32_of_be(s) as int == be_value4(s),
{
    let y0 = s[0];
    let y1 = s[1];
    let y2 = s[2];
    let y3 = s[3];
    assert((((y0 as u32) << 24) | ((y1 as u32) << 16) | ((y2 as u32) << 8) | (y3 as u32)) as int
        == y0 * 0x1000000 + y1 * 0x10000 + y2 * 0x100 + y3) by (bit_vector);
}

/// Reading eight bytes big-endian gives their positional value.
pub proof fn lemma_u64_of_be_value(s: Seq<u8>)
    requires
        s.len() >= 8,
    ensures
        u64_of_be(s) as int == be_value8(s),
{
    let y0 = s[0];
    let y1 = s[1];
    let y2 = s[2];
    let y3 = s[3];
    let y4 = s[4];
    let y5 = s[5];
    let y6 = s[6];
    let y7 = s[7];
    assert((((y0 as u64) << 56) | ((y1 as u64) << 48) | ((y2 as u64) << 40) | ((y3 as u64) << 32)
        | ((y4 as u64) << 24) | ((y5 as u64) << 16) | ((y6 as u64) << 8) | (y7 as u64)) as int
        == y0 * 0x100000000000000 + y1 * 0x1000000000000 + y2 * 0x10000000000 + y3 * 0x100000000
        + y4 * 0x1000000 + y5 * 0x10000 + y6 * 0x100 + y7) by (bit_vector);
}

/// The little-endian value of two bytes.
pub open spec fn le_value2(s: Seq<u8>) -> int {
    s[0] + s[1] * 0x100
}

/// The little-endian value of four bytes.
pub open spec fn le_value4(s: Seq<u8>) -> int {
    s[0] + s[1] * 0x100 + s[2] * 0x10000 + s[3] * 0x1000000
}

/// The little-endian value of eight bytes.
pub open spec fn le_value8(s: Seq<u8>) -> int {
    s[0] + s[1] * 0x100 + s[2] * 0x10000 + s[3] * 0x1000000 + s[4] * 0x100000000
        + s[5] * 0x10000000000 + s[6] * 0x1000000000000 + s[7] * 0x100000000000000
}

/// Reading bytes little-endian gives their positional value, lowest byte
/// first.
pub proof fn lemma_of_le_value(s: Seq<u8>)
    ensures
        s.len() >= 2 ==> u16_of_le(s) as int == le_value2(s),
        s.len() >= 4 ==> u32_of_le(s) as int == le_value4(s),
        s.len() >= 8 ==> u64_of_le(s) as int == le_value8(s),
{
    if s.len() >= 2 {
        let y0 = s[0];
        let y1 = s[1];
        assert(((y0 as u16) | ((y1 as u16) << 8)) as int == y0 + y1 * 0x100) by (bit_vector);
    }
    if s.len() >= 4 {
        let y0 = s[0];
        let y1 = s[1];
        let y2 = s[2];
        let y3 = s[3];
        assert(((y0 as u32) | ((y1 as u32) << 8) | ((y2 as u32) << 16) | ((y3 as u32) << 24)) as int
            == y0 + y1 * 0x100 + y2 * 0x10000 + y3 * 0x1000000) by (bit_vector);
    }
    if s.len() >= 8 {
        let y0 = s[0];
        let y1 = s[1];
        let y2 = s[2];
        let y3 = s[3];
        let y4 = s[4];
        let y5 = s[5];
        let y6 = s[6];
        let y7 = s[7];
        assert(((y0 as u64) | ((y1 as u64) << 8) | ((y2 as u64) << 16) | ((y3 as u64) << 24)
            | ((y4 as u64) << 32) | ((y5 as u64) << 40) | ((y6 as u64) << 48) | ((y7 as u64) << 56)) as int
            == y0 + y1 * 0x100 + y2 * 0x10000 + y3 * 0x1000000 + y4 * 0x100000000
            + y5 * 0x10000000000 + y6 * 0x1000000000000 + y7 * 0x100000000000000) by (bit_vector);
    }
}

/// The little-endian bytes of a value have that value, lowest byte first;
/// the big-endian bytes have it highest byte first.
pub proof fn lemma_encodings_value(a: u16, b: u32, c: u64)
    ensures
        le_value2(le_u16(a)) == a,
        le_value4(le_u32(b)) == b,
        le_value8(le_u64(c)) == c,
        be_value2(be_u16(a)) == a,
        be_value4(be_u32(b)) == b,
        be_value8(be_u64(c)) == c,
{
    lemma_u16_le_round_trip(a, le_u16(a));
    lemma_u32_le_round_trip(b, le_u32(b));
    lemma_u64_le_round_trip(c, le_u64(c));
    lemma_u16_be_round_trip(a, be_u16(a));
    lemma_u32_be_round_trip(b, be_u32(b));
    lemma_u64_be_round_trip(c, be_u64(c));
    lemma_of_le_value(le_u16(a));
    lemma_of_le_value(le_u32(b));
    lemma_of_le_value(le_u64(c));
    lemma_u16_of_be_value(be_u16(a));
    lemma_u32_of_be_value(be_u32(b));
    lemma_u64_of_be_value(be_u64(c));
}

} // verus!
