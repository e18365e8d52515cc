//! Serialized-object navigation: the host's `sto_subfield`/`sto_subarray`
//! answer packs an offset (upper 32 bits) and a length (lower 32 bits) into
//! one `i64`; this unpacks it into a range and slices the source with it.

use vstd::prelude::*;
use crate::error::{res, spec_res, HookError, Result};

verus! {

/// The `(offset, length)` pair packed into a host answer.
pub open spec fn unpacked(packed: i64) -> (i32, i32) {
    ((packed >> 32) as i32, (packed & 0xFFFF_FFFF) as i32)
}

/// Splits a packed answer into its offset (upper half) and length (lower
/// half).
pub fn unpack_sub(packed: i64) -> (r: (i32, i32))
    ensures
        r == unpacked(packed),
{
    let offset = (packed >> 32) as i32;
    let length = (packed & 0xFFFF_FFFF) as i32;
    (offset, length)
}

/// Packing a non-negative offset and length the way the host does (offset
/// in the upper 32 bits, length in the lower) and unpacking the result
/// gives them back, as a valid range.
pub proof fn lemma_unpack_of_packed(offset: i64, length: i64)
    requires
        0 <= offset < 0x8000_0000,
        0 <= length < 0x8000_0000,
    ensures
        unpacked((offset << 32) | length) == (offset as i32, length as i32),
        packed_range((offset << 32) | length) == Ok::<(usize, usize), HookError>(
            (offset as usize, length as usize),
        ),
{
    let p = (offset << 32) | length;
    assert(((p >> 32) as i32) == offset as i32 && ((p & 0xFFFF_FFFF) as i32) == length as i32)
        by (bit_vector)
        requires
            0 <= offset < 0x8000_0000,
            0 <= length < 0x8000_0000,
            p == (offset << 32) | length,
    ;
}

/// The range a packed answer names, or [`HookError::ParseError`] when
/// either half is negative.
pub open spec fn packed_range(packed: i64) -> Result<(usize, usize)> {
    let (offset, length) = unpacked(packed);
    if offset < 0 || length < 0 {
        Err(HookError::ParseError)
    } else {
        Ok((offset as usize, length as usize))
    }
}

/// The `(offset, length)` range a packed answer names.
///
/// # Errors
///
/// [`HookError::ParseError`] when the offset or the length is negative.
pub fn range_from_packed(packed: i64) -> (r: Result<(usize, usize)>)
    ensures
        r == packed_range(packed),
{
    let (offset, length) = unpack_sub(packed);
    if offset < 0 || length < 0 {
        return Err(HookError::ParseError);
    }
    Ok((offset as usize, length as usize))
}

/// What a range read gives from the host's answer `code`: its error, or
/// the range its payload packs.
pub open spec fn range_reply(code: i64) -> Result<(usize, usize)> {
    match spec_res(code) {
        Err(e) => Err(e),
        Ok(packed) => packed_range(packed),
    }
}

/// The range of a field, from the host's `sto_subfield` answer.
///
/// # Errors
///
/// The host's error, or [`HookError::ParseError`] for a negative half.
pub fn sto_subfield_range(code: i64) -> (r: Result<(usize, usize)>)
    ensures
        r == range_reply(code),
{
    let packed = res(code)?;
    range_from_packed(packed)
}

/// The range of an array element, from the host's `sto_subarray` answer.
///
/// # Errors
///
/// The host's error, or [`HookError::ParseError`] for a negative half.
pub fn sto_subarray_range(code: i64) -> (r: Result<(usize, usize)>)
    ensures
        r == range_reply(code),
{
    let packed = res(code)?;
    range_from_packed(packed)
}

/// What slicing `src` by the host's answer gives: the range's error, the
/// bytes it names, or [`HookError::OutOfBounds`] when they lie outside
/// `src`.
pub open spec fn slice_reply(src: Seq<u8>, code: i64) -> Result<Seq<u8>> {
    match range_reply(code) {
        Err(e) => Err(e),
        Ok((offset, length)) => if offset + length <= src.len() {
            Ok(src.subrange(offset as int, offset + length))
        } else {
            Err(HookError::OutOfBounds)
        },
    }
}

fn slice_by<'a>(src: &'a [u8], code: i64) -> (r: Result<&'a [u8]>)
    ensures
        match slice_reply(src@, code) {
            Ok(s) => r is Ok && r->Ok_0@ == s,
            Err(e) => r == Err::<&[u8], HookError>(e),
        },
{
    let packed = res(code)?;
    let (offset, length) = range_from_packed(packed)?;
    let end = match offset.checked_add(length) {
        Some(e) => e,
        None => {
            return Err(HookError::OutOfBounds);
        },
    };
    if end > src.len() {
        return Err(HookError::OutOfBounds);
    }
    Ok(vstd::slice::slice_subrange(src, offset, end))
}

/// The bytes of a field inside `sto`, from the host's `sto_subfield`
/// answer for it.
///
/// # Errors
///
/// As [`sto_subfield_range`], or [`HookError::OutOfBounds`] for a range
/// outside `sto`.
pub fn sto_subfield_slice<'a>(sto: &'a [u8], code: i64) -> (r: Result<&'a [u8]>)
    ensures
        match slice_reply(sto@, code) {
            Ok(s) => r is Ok && r->Ok_0@ == s,
            Err(e) => r == Err::<&[u8], HookError>(e),
        },
{
    slice_by(sto, code)
}

/// The bytes of an element inside `array`, from the host's `sto_subarray`
/// answer for it.
///
/// # Errors
///
/// As [`sto_subarray_range`], or [`HookError::OutOfBounds`] for a range
/// outside `array`.
pub fn sto_subarray_slice<'a>(array: &'a [u8], code: i64) -> (r: Result<&'a [u8]>)
    ensures
        match slice_reply(array@, code) {
            Ok(s) => r is Ok && r->Ok_0@ == s,
            Err(e) => r == Err::<&[u8], HookError>(e),
        },
{
    slice_by(array, code)
}

/// Whether the host's `sto_validate` answer says the object is valid.
///
/// # Errors
///
/// The host's error for a negative answer.
pub fn sto_validate(code: i64) -> (r: Result<bool>)
    ensures
        match spec_res(code) {
            Ok(v) => r == Ok::<bool, HookError>(v != 0),
            Err(e) => r == Err::<bool, HookError>(e),
        },
{
    let v = res(code)?;
    Ok(v != 0)
}

} // verus!
