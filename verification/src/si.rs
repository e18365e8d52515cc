//! The Hook State Interface's version-0 fixed-width field codec:
//! [`SiFieldType`]. A state-interface value crosses the same protocol
//! boundary as a raw transaction field, so integers are big-endian; byte
//! arrays and byte newtypes are copied verbatim; an [`XFL`] is its raw
//! bit pattern, big-endian. Writing into a buffer shorter than the field's
//! width writes nothing; reading from one shorter than the width reads the
//! all-zero field.

use vstd::prelude::*;
use crate::bytes::{
    be_u16, be_u32, be_u64, u16_of_be, u32_of_be, u64_of_be, u16_to_be, u32_to_be, u64_to_be,
    u16_from_be, u32_from_be, u64_from_be, lemma_u16_be_round_trip, lemma_u32_be_round_trip,
    lemma_u64_be_round_trip,
};
use crate::convert::{array_from, array_of, lemma_array_view_injective, write_front, written_into};
use crate::types::{AccountId, CurrencyCode, XFL};

pub use crate::interface_name::is_valid_name;

verus! {

/// Length of the State ID prefix at the front of an interface state key.
pub const STATE_ID_PREFIX_LEN: usize = 1;

/// Room left for key fields after the State ID prefix.
pub const MAX_KEY_PAYLOAD: usize = 31;

/// `bytes`' first `width` bytes, or `width` zero bytes when `bytes` is
/// shorter.
pub open spec fn field_bytes(bytes: Seq<u8>, width: nat) -> Seq<u8> {
    if bytes.len() >= width {
        bytes.subrange(0, width as int)
    } else {
        Seq::new(width, |i: int| 0u8)
    }
}

/// A fixed-width state-interface field type.
pub trait SiFieldType: Sized {
    /// The type code the interface declares for this type.
    const TYPE_BYTE: u8;

    /// The encoded width in bytes.
    const WIDTH: usize;

    /// The encoding of `self`; it is [`SiFieldType::WIDTH`] bytes long.
    spec fn si_encoding(&self) -> Seq<u8>;

    /// The value that `bytes` ([`SiFieldType::WIDTH`] of them) decode to.
    spec fn si_decoding(bytes: Seq<u8>) -> Self;

    /// Writes the encoding at the front of `out`, or nothing when `out` is
    /// shorter than the width.
    fn write_si(&self, out: &mut [u8])
        ensures
            self.si_encoding().len() == Self::WIDTH,
            final(out)@ == written_into(old(out)@, self.si_encoding()),
    ;

    /// Decodes the front of `bytes`, reading the all-zero field when
    /// `bytes` is shorter than the width.
    fn read_si(bytes: &[u8]) -> (v: Self)
        ensures
            v == Self::si_decoding(field_bytes(bytes@, Self::WIDTH as nat)),
    ;
}

/// The first `N` bytes of `bytes` as an array, or all zeros when `bytes` is
/// shorter.
fn read_field<const N: usize>(bytes: &[u8]) -> (out: [u8; N])
    ensures
        out@ == field_bytes(bytes@, N as nat),
{
    if bytes.len() >= N {
        array_from(vstd::slice::slice_subrange(bytes, 0, N))
    } else {
        let out: [u8; N] = vstd::array::array_fill_for_copy_types(0u8);
        assert(out@ =~= field_bytes(bytes@, N as nat));
        out
    }
}

impl SiFieldType for u8 {
    const TYPE_BYTE: u8 = 0x10;
    const WIDTH: usize = 1;

    open spec fn si_encoding(&self) -> Seq<u8> {
        seq![*self]
    }

    open spec fn si_decoding(bytes: Seq<u8>) -> u8 {
        bytes[0]
    }

    fn write_si(&self, out: &mut [u8]) {
        let b = [*self];
        assert(b@ =~= seq![*self]);
        write_front(out, b.as_slice());
    }

    fn read_si(bytes: &[u8]) -> (v: u8) {
        if bytes.len() >= 1 {
            bytes[0]
        } else {
            0
        }
    }
}

impl SiFieldType for u16 {
    const TYPE_BYTE: u8 = 0x01;
    const WIDTH: usize = 2;

    open spec fn si_encoding(&self) -> Seq<u8> {
        be_u16(*self)
    }

    open spec fn si_decoding(bytes: Seq<u8>) -> u16 {
        u16_of_be(bytes)
    }

    fn write_si(&self, out: &mut [u8]) {
        let b = u16_to_be(*self);
        write_front(out, b.as_slice());
    }

    fn read_si(bytes: &[u8]) -> (v: u16) {
        let b: [u8; 2] = read_field(bytes);
        u16_from_be(b.as_slice())
    }
}

impl SiFieldType for u32 {
    const TYPE_BYTE: u8 = 0x02;
    const WIDTH: usize = 4;

    open spec fn si_encoding(&self) -> Seq<u8> {
        be_u32(*self)
    }

    open spec fn si_decoding(bytes: Seq<u8>) -> u32 {
        u32_of_be(bytes)
    }

    fn write_si(&self, out: &mut [u8]) {
        let b = u32_to_be(*self);
        write_front(out, b.as_slice());
    }

    fn read_si(bytes: &[u8]) -> (v: u32) {
        let b: [u8; 4] = read_field(bytes);
        u32_from_be(b.as_slice())
    }
}

impl SiFieldType for u64 {
    const TYPE_BYTE: u8 = 0x03;
    const WIDTH: usize = 8;

    open spec fn si_encoding(&self) -> Seq<u8> {
        be_u64(*self)
    }

    open spec fn si_decoding(bytes: Seq<u8>) -> u64 {
        u64_of_be(bytes)
    }

    fn write_si(&self, out: &mut [u8]) {
        let b = u64_to_be(*self);
        write_front(out, b.as_slice());
    }

    fn read_si(bytes: &[u8]) -> (v: u64) {
        let b: [u8; 8] = read_field(bytes);
        u64_from_be(b.as_slice())
    }
}

impl SiFieldType for [u8; 16] {
    const TYPE_BYTE: u8 = 0x04;
    const WIDTH: usize = 16;

    open spec fn si_encoding(&self) -> Seq<u8> {
        self@
    }

    open spec fn si_decoding(bytes: Seq<u8>) -> [u8; 16] {
        array_of(bytes)
    }

    fn write_si(&self, out: &mut [u8]) {
        write_front(out, self.as_slice());
    }

    fn read_si(bytes: &[u8]) -> (v: [u8; 16]) {
        let b: [u8; 16] = read_field(bytes);
        proof {
            lemma_array_view_injective(b, array_of(b@));
        }
        b
    }
}

impl SiFieldType for [u8; 32] {
    const TYPE_BYTE: u8 = 0x05;
    const WIDTH: usize = 32;

    open spec fn si_encoding(&self) -> Seq<u8> {
        self@
    }

    open spec fn si_decoding(bytes: Seq<u8>) -> [u8; 32] {
        array_of(bytes)
    }

    fn write_si(&self, out: &mut [u8]) {
        write_front(out, self.as_slice());
    }

    fn read_si(bytes: &[u8]) -> (v: [u8; 32]) {
        let b: [u8; 32] = read_field(bytes);
        proof {
            lemma_array_view_injective(b, array_of(b@));
        }
        b
    }
}

impl SiFieldType for crate::types::Hash {
    const TYPE_BYTE: u8 = 0x05;
    const WIDTH: usize = 32;

    open spec fn si_encoding(&self) -> Seq<u8> {
        self.0@
    }

    open spec fn si_decoding(bytes: Seq<u8>) -> crate::types::Hash {
        crate::types::Hash(array_of(bytes))
    }

    fn write_si(&self, out: &mut [u8]) {
        write_front(out, self.0.as_slice());
    }

    fn read_si(bytes: &[u8]) -> (v: crate::types::Hash) {
        let b: [u8; 32] = read_field(bytes);
        proof {
            lemma_array_view_injective(b, array_of(b@));
        }
        crate::types::Hash(b)
    }
}

impl SiFieldType for AccountId {
    const TYPE_BYTE: u8 = 0x08;
    const WIDTH: usize = 20;

    open spec fn si_encoding(&self) -> Seq<u8> {
        self.0@
    }

    open spec fn si_decoding(bytes: Seq<u8>) -> AccountId {
        AccountId(array_of(bytes))
    }

    fn write_si(&self, out: &mut [u8]) {
        write_front(out, self.0.as_slice());
    }

    fn read_si(bytes: &[u8]) -> (v: AccountId) {
        let b: [u8; 20] = read_field(bytes);
        proof {
            lemma_array_view_injective(b, array_of(b@));
        }
        AccountId(b)
    }
}

impl SiFieldType for [u8; 20] {
    const TYPE_BYTE: u8 = 0x11;
    const WIDTH: usize = 20;

    open spec fn si_encoding(&self) -> Seq<u8> {
        self@
    }

    open spec fn si_decoding(bytes: Seq<u8>) -> [u8; 20] {
        array_of(bytes)
    }

    fn write_si(&self, out: &mut [u8]) {
        write_front(out, self.as_slice());
    }

    fn read_si(bytes: &[u8]) -> (v: [u8; 20]) {
        let b: [u8; 20] = read_field(bytes);
        proof {
            lemma_array_view_injective(b, array_of(b@));
        }
        b
    }
}

impl SiFieldType for CurrencyCode {
    const TYPE_BYTE: u8 = 0x1A;
    const WIDTH: usize = 20;

    open spec fn si_encoding(&self) -> Seq<u8> {
        self.0@
    }

    open spec fn si_decoding(bytes: Seq<u8>) -> CurrencyCode {
        CurrencyCode(array_of(bytes))
    }

    fn write_si(&self, out: &mut [u8]) {
        write_front(out, self.0.as_slice());
    }

    fn read_si(bytes: &[u8]) -> (v: CurrencyCode) {
        let b: [u8; 20] = read_field(bytes);
        proof {
            lemma_array_view_injective(b, array_of(b@));
        }
        CurrencyCode(b)
    }
}

impl SiFieldType for XFL {
    const TYPE_BYTE: u8 = 0x80;
    const WIDTH: usize = 8;

    open spec fn si_encoding(&self) -> Seq<u8> {
        be_u64(self.0 as u64)
    }

    open spec fn si_decoding(bytes: Seq<u8>) -> XFL {
        XFL(u64_of_be(bytes) as i64)
    }

    fn write_si(&self, out: &mut [u8]) {
        let b = u64_to_be(self.raw_bits() as u64);
        write_front(out, b.as_slice());
    }

    fn read_si(bytes: &[u8]) -> (v: XFL) {
        let b: [u8; 8] = read_field(bytes);
        XFL::from_raw_bits(u64_from_be(b.as_slice()) as i64)
    }
}

/// Reading a state-interface integer field back gives the value written.
pub proof fn lemma_si_int_round_trips(a: u8, b: u16, c: u32, d: u64)
    ensures
        <u8 as SiFieldType>::si_decoding(a.si_encoding()) == a,
        <u16 as SiFieldType>::si_decoding(b.si_encoding()) == b,
        <u32 as SiFieldType>::si_decoding(c.si_encoding()) == c,
        <u64 as SiFieldType>::si_decoding(d.si_encoding()) == d,
{
    lemma_u16_be_round_trip(b, be_u16(b));
    lemma_u32_be_round_trip(c, be_u32(c));
    lemma_u64_be_round_trip(d, be_u64(d));
}

/// Reading a state-interface byte field back gives the value written.
pub proof fn lemma_si_bytes_round_trips(h: crate::types::Hash, a: AccountId, c: CurrencyCode, x: [u8; 20])
    ensures
        <crate::types::Hash as SiFieldType>::si_decoding(h.si_encoding()) == h,
        <AccountId as SiFieldType>::si_decoding(a.si_encoding()) == a,
        <CurrencyCode as SiFieldType>::si_decoding(c.si_encoding()) == c,
        <[u8; 20] as SiFieldType>::si_decoding(x.si_encoding()) == x,
{
    lemma_array_view_injective(h.0, array_of(h.0@));
    lemma_array_view_injective(a.0, array_of(a.0@));
    lemma_array_view_injective(c.0, array_of(c.0@));
    lemma_array_view_injective(x, array_of(x@));
}

/// Reading a state-interface XFL field back gives the bit pattern written.
pub proof fn lemma_si_xfl_round_trip(v: XFL)
    ensures
        <XFL as SiFieldType>::si_decoding(v.si_encoding()) == v,
{
    lemma_u64_be_round_trip(v.0 as u64, be_u64(v.0 as u64));
    crate::bytes::lemma_i64_bits_round_trip(v.0);
}

} // verus!
