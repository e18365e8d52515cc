//! The raw Hook API return codes of `hook/error.h`, as plain `i64` constants.

use vstd::prelude::*;

verus! {

/// `OUT_OF_BOUNDS`: memory access out of bounds.
pub const OUT_OF_BOUNDS: i64 = -1;

/// `INTERNAL_ERROR`: unexpected internal error.
pub const INTERNAL_ERROR: i64 = -2;

/// `TOO_BIG`: data is too large.
pub const TOO_BIG: i64 = -3;

/// `TOO_SMALL`: buffer is too small.
pub const TOO_SMALL: i64 = -4;

/// `DOESNT_EXIST`: requested item does not exist.
pub const DOESNT_EXIST: i64 = -5;

/// `NO_FREE_SLOTS`: no available slots.
pub const NO_FREE_SLOTS: i64 = -6;

/// `INVALID_ARGUMENT`: argument is invalid.
pub const INVALID_ARGUMENT: i64 = -7;

/// `ALREADY_SET`: already configured.
pub const ALREADY_SET: i64 = -8;

/// `PREREQUISITE_NOT_MET`: prerequisite condition not satisfied.
pub const PREREQUISITE_NOT_MET: i64 = -9;

/// `FEE_TOO_LARGE`: fee is too large.
pub const FEE_TOO_LARGE: i64 = -10;

/// `EMISSION_FAILURE`: transaction emission failed.
pub const EMISSION_FAILURE: i64 = -11;

/// `TOO_MANY_NONCES`: nonce generation limit exceeded.
pub const TOO_MANY_NONCES: i64 = -12;

/// `TOO_MANY_EMITTED_TXN`: emitted transaction limit exceeded.
pub const TOO_MANY_EMITTED_TXN: i64 = -13;

/// `NOT_IMPLEMENTED`: feature not implemented (also every host-build stub's answer).
pub const NOT_IMPLEMENTED: i64 = -14;

/// `INVALID_ACCOUNT`: account ID is invalid.
pub const INVALID_ACCOUNT: i64 = -15;

/// `GUARD_VIOLATION`: infinite-loop guard violation.
pub const GUARD_VIOLATION: i64 = -16;

/// `INVALID_FIELD`: field ID is invalid.
pub const INVALID_FIELD: i64 = -17;

/// `PARSE_ERROR`: failed to parse data.
pub const PARSE_ERROR: i64 = -18;

/// `RC_ROLLBACK`: hook execution terminated via rollback.
pub const RC_ROLLBACK: i64 = -19;

/// `RC_ACCEPT`: hook execution terminated via accept.
pub const RC_ACCEPT: i64 = -20;

/// `NO_SUCH_KEYLET`: keylet not found.
pub const NO_SUCH_KEYLET: i64 = -21;

/// `NOT_AN_ARRAY`: object is not an array.
pub const NOT_AN_ARRAY: i64 = -22;

/// `NOT_AN_OBJECT`: object is not an object.
pub const NOT_AN_OBJECT: i64 = -23;

/// `INVALID_FLOAT`: XFL value is invalid.
pub const INVALID_FLOAT: i64 = -10024;

/// `DIVISION_BY_ZERO`: division by zero.
pub const DIVISION_BY_ZERO: i64 = -25;

/// `MANTISSA_OVERSIZED`: XFL mantissa too large.
pub const MANTISSA_OVERSIZED: i64 = -26;

/// `MANTISSA_UNDERSIZED`: XFL mantissa too small.
pub const MANTISSA_UNDERSIZED: i64 = -27;

/// `EXPONENT_OVERSIZED`: XFL exponent too large.
pub const EXPONENT_OVERSIZED: i64 = -28;

/// `EXPONENT_UNDERSIZED`: XFL exponent too small.
pub const EXPONENT_UNDERSIZED: i64 = -29;

/// `XFL_OVERFLOW`: XFL arithmetic overflow.
pub const XFL_OVERFLOW: i64 = -30;

/// `NOT_IOU_AMOUNT`: not an IOU amount.
pub const NOT_IOU_AMOUNT: i64 = -31;

/// `NOT_AN_AMOUNT`: not an amount type.
pub const NOT_AN_AMOUNT: i64 = -32;

/// `CANT_RETURN_NEGATIVE`: cannot return a negative value.
pub const CANT_RETURN_NEGATIVE: i64 = -33;

/// `NOT_AUTHORIZED`: no access permission.
pub const NOT_AUTHORIZED: i64 = -34;

/// `PREVIOUS_FAILURE_PREVENTS_RETRY`: a previous failure prevents retrying this operation.
pub const PREVIOUS_FAILURE_PREVENTS_RETRY: i64 = -35;

/// `TOO_MANY_PARAMS`: parameter limit exceeded.
pub const TOO_MANY_PARAMS: i64 = -36;

/// `INVALID_TXN`: transaction is invalid.
pub const INVALID_TXN: i64 = -37;

/// `RESERVE_INSUFFICIENT`: reserve insufficient for the operation.
pub const RESERVE_INSUFFICIENT: i64 = -38;

/// `COMPLEX_NOT_SUPPORTED`: complex-domain result not supported.
pub const COMPLEX_NOT_SUPPORTED: i64 = -39;

/// `DOES_NOT_MATCH`: values do not match.
pub const DOES_NOT_MATCH: i64 = -40;

/// `INVALID_KEY`: key is invalid.
pub const INVALID_KEY: i64 = -41;

/// `NOT_A_STRING`: value is not a string.
pub const NOT_A_STRING: i64 = -42;

/// `MEM_OVERLAP`: memory regions overlap.
pub const MEM_OVERLAP: i64 = -43;

/// `TOO_MANY_STATE_MODIFICATIONS`: state modification limit exceeded.
pub const TOO_MANY_STATE_MODIFICATIONS: i64 = -44;

/// `TOO_MANY_NAMESPACES`: namespace limit exceeded.
pub const TOO_MANY_NAMESPACES: i64 = -45;

} // verus!
