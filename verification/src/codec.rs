//! The serialization primitives of the XRPL/Xahau binary format this library
//! writes: field headers, variable-length prefixes and native amounts.

use vstd::prelude::*;
use crate::bytes::{be_u64, be_value8, lemma_u64_be_round_trip, lemma_u64_of_be_value, u64_to_be};
use crate::error::{HookError, Result};

verus! {

/// The largest payload a variable-length (`VL`) prefix can describe.
pub const MAX_VL_LEN: usize = 918744;

/// Native amounts are limited to 62 bits of drops; this is the first value
/// that does not fit.
pub const MAX_NATIVE_DROPS: u64 = 0x4000_0000_0000_0000;

/// The header bytes of field `code = (type << 16) | field`: one byte when
/// both halves are below 16, two when one of them is, three otherwise.
pub open spec fn header_bytes(code: u32) -> Seq<u8> {
    let t = code / 65536;
    let f = code % 65536;
    if t < 16 {
        if f < 16 {
            seq![(t * 16 + f) as u8]
        } else {
            seq![(t * 16) as u8, f as u8]
        }
    } else {
        if f < 16 {
            seq![f as u8, t as u8]
        } else {
            seq![0u8, t as u8, f as u8]
        }
    }
}

/// Writes field `code`'s header into the front of a 3-byte buffer and
/// returns it together with the number of bytes used.
pub fn field_header(code: u32) -> (r: ([u8; 3], usize))
    ensures
        1 <= r.1 <= 3,
        r.0@.subrange(0, r.1 as int) == header_bytes(code),
{
    let t: u32 = code / 65536;
    let f: u32 = code % 65536;
    let r: ([u8; 3], usize) = if t < 16 {
        if f < 16 {
            ([(t * 16 + f) as u8, 0u8, 0u8], 1)
        } else {
            ([(t * 16) as u8, f as u8, 0u8], 2)
        }
    } else {
        if f < 16 {
            ([f as u8, t as u8, 0u8], 2)
        } else {
            ([0u8, t as u8, f as u8], 3)
        }
    };
    assert(r.0@.subrange(0, r.1 as int) =~= header_bytes(code));
    r
}

/// The number of header bytes of field `code`.
pub fn header_len(code: u32) -> (n: usize)
    ensures
        n == header_bytes(code).len(),
        1 <= n <= 3,
{
    let (_, n) = field_header(code);
    n
}

/// The length prefix of a variable-length payload of `len` bytes: one byte
/// up to 192, two up to 12480, three up to [`MAX_VL_LEN`].
pub open spec fn vl_prefix(len: int) -> Seq<u8> {
    if len <= 192 {
        seq![len as u8]
    } else if len <= 12480 {
        let adj = len - 193;
        seq![(193 + adj / 256) as u8, (adj % 256) as u8]
    } else {
        let adj = len - 12481;
        seq![(241 + adj / 65536) as u8, ((adj / 256) % 256) as u8, (adj % 256) as u8]
    }
}

/// Writes the length prefix of a `len`-byte payload into the front of a
/// 3-byte buffer and returns it with the number of bytes used.
pub fn vl_length_prefix(len: usize) -> (r: ([u8; 3], usize))
    requires
        len <= MAX_VL_LEN,
    ensures
        1 <= r.1 <= 3,
        r.0@.subrange(0, r.1 as int) == vl_prefix(len as int),
{
    let r: ([u8; 3], usize) = if len <= 192 {
        ([len as u8, 0u8, 0u8], 1)
    } else if len <= 12480 {
        let adj = len - 193;
        ([(193 + adj / 256) as u8, (adj % 256) as u8, 0u8], 2)
    } else {
        let adj = len - 12481;
        ([(241 + adj / 65536) as u8, ((adj / 256) % 256) as u8, (adj % 256) as u8], 3)
    };
    assert(r.0@.subrange(0, r.1 as int) =~= vl_prefix(len as int));
    r
}

/// The serialized native amount of `drops`: big-endian, with the
/// "positive" bit (bit 62) set and the "not native" bit (bit 63) clear.
pub open spec fn native_amount_bytes(drops: u64) -> Seq<u8> {
    be_u64((drops + MAX_NATIVE_DROPS) as u64)
}

/// Encodes `drops` as a serialized native amount.
///
/// # Errors
///
/// [`HookError::InvalidArgument`] when `drops` does not fit in 62 bits.
pub fn encode_native_amount(drops: u64) -> (r: Result<[u8; 8]>)
    ensures
        drops < MAX_NATIVE_DROPS ==> (r matches Ok(b) && b@ == native_amount_bytes(drops)),
        drops >= MAX_NATIVE_DROPS ==> r == Err::<[u8; 8], HookError>(HookError::InvalidArgument),
{
    if drops >= MAX_NATIVE_DROPS {
        return Err(HookError::InvalidArgument);
    }
    Ok(u64_to_be(drops + MAX_NATIVE_DROPS))
}

/// The value a length prefix declares, read the way a decoder of the binary
/// format reads it: one byte is the length itself; two bytes count on from
/// 193, 256 per step of the first byte; three bytes count on from 12481,
/// 65536 per step of the first byte and 256 per step of the second.
pub open spec fn vl_prefix_value(p: Seq<u8>) -> int {
    if p.len() == 1 {
        p[0] as int
    } else if p.len() == 2 {
        193 + (p[0] - 193) * 256 + p[1]
    } else {
        12481 + (p[0] - 241) * 65536 + p[1] * 256 + p[2]
    }
}

/// Every length up to [`MAX_VL_LEN`] gets a prefix that decodes back to it,
/// and the prefix's first byte alone tells a decoder its size: at most 192
/// for one byte, 193 to 240 for two, 241 to 254 for three.
pub proof fn lemma_vl_prefix_decodes(len: int)
    requires
        0 <= len <= MAX_VL_LEN,
    ensures
        vl_prefix_value(vl_prefix(len)) == len,
        len <= 192 ==> vl_prefix(len).len() == 1 && vl_prefix(len)[0] <= 192,
        192 < len <= 12480 ==> vl_prefix(len).len() == 2 && 193 <= vl_prefix(len)[0] <= 240,
        12480 < len ==> vl_prefix(len).len() == 3 && 241 <= vl_prefix(len)[0] <= 254,
{
    if len <= 192 {
    } else if len <= 12480 {
        let adj = len - 193;
        assert(0 <= adj / 256 <= 47);
        assert(193 + (adj / 256) * 256 + adj % 256 == len);
    } else {
        let adj = len - 12481;
        let q = adj / 256;
        assert(0 <= adj / 65536 <= 13);
        assert(adj == q * 256 + adj % 256);
        assert(q == (q / 256) * 256 + q % 256);
        assert(adj / 65536 == q / 256) by {
            vstd::arithmetic::div_mod::lemma_div_denominator(adj, 256, 256);
        }
        assert(12481 + (adj / 65536) * 65536 + (q % 256) * 256 + adj % 256 == len);
    }
}

/// A native amount of `drops` below the 62-bit limit is eight bytes whose
/// big-endian value is `drops` with the positive bit (bit 62) added: the
/// first byte has `0x40` set and `0x80` clear, and the low 62 bits are
/// `drops` itself.
pub proof fn lemma_native_amount_encodes_drops(drops: u64)
    requires
        drops < MAX_NATIVE_DROPS,
    ensures
        native_amount_bytes(drops).len() == 8,
        be_value8(native_amount_bytes(drops)) == drops + 0x4000_0000_0000_0000,
        be_value8(native_amount_bytes(drops)) - 0x4000_0000_0000_0000 == drops,
        0x40 <= native_amount_bytes(drops)[0] < 0x80,
{
    let v: u64 = (drops + MAX_NATIVE_DROPS) as u64;
    assert(v == drops + 0x4000_0000_0000_0000);
    let e = be_u64(v);
    lemma_u64_be_round_trip(v, e);
    lemma_u64_of_be_value(e);
    assert(0x40 <= (v >> 56) as u8 && ((v >> 56) as u8) < 0x80) by (bit_vector)
        requires
            0x4000_0000_0000_0000 <= v && v < 0x8000_0000_0000_0000;
}

/// The `(type, field)` pair a header names, read the way a decoder of the
/// binary format reads it: the first byte's high nibble is the type and its
/// low nibble the field; a zero nibble means that half follows in a byte of
/// its own, the type before the field.
pub open spec fn header_value(h: Seq<u8>) -> (int, int) {
    let hi = h[0] / 16;
    let lo = h[0] % 16;
    if hi != 0 && lo != 0 {
        (hi as int, lo as int)
    } else if hi != 0 {
        (hi as int, h[1] as int)
    } else if lo != 0 {
        (h[1] as int, lo as int)
    } else {
        (h[1] as int, h[2] as int)
    }
}

/// How many bytes a header is, told by its first byte: one more for each
/// zero nibble.
pub open spec fn header_size(b0: u8) -> int {
    1 + (if b0 / 16 == 0 { 1int } else { 0int }) + (if b0 % 16 == 0 { 1int } else { 0int })
}

/// The header of a field whose type and field numbers are 1 to 255 decodes
/// back to them, and its first byte tells its length.
pub proof fn lemma_field_header_decodes(code: u32)
    requires
        1 <= code / 65536 <= 255,
        1 <= code % 65536 <= 255,
    ensures
        header_value(header_bytes(code)) == (code as int / 65536, code as int % 65536),
        header_bytes(code).len() == header_size(header_bytes(code)[0]),
{
}

} // verus!
