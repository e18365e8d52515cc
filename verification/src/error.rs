//! Hook API error model: every Hook API call returns an `i64`; non-negative
//! values are success payloads and negative values are one of the error codes
//! of `hook/error.h`. [`HookError`] names each of those codes (plus
//! [`HookError::Unknown`] for any other value), [`HookErrorKind`] is the
//! payload-free view used for exhaustive dispatch, and [`res`] splits a raw
//! return value by sign.

use vstd::prelude::*;

verus! {

/// A Hook API error: one variant per named code in `hook/error.h`, plus
/// [`HookError::Unknown`] carrying any code that has no name.
///
/// A value built by [`HookError::from_code`] (or `From<i64>`) is always
/// *canonical* (see [`HookError::is_canonical`]): a named code is never held
/// in `Unknown`, so two canonical errors are equal exactly when their codes
/// are. `Unknown` is public, so a caller can still build a non-canonical
/// value such as `Unknown(-5)`: it has the code `-5` of `DoesntExist` but
/// compares unequal to it. The value is a variant tag beside the code (16
/// bytes), not a bare `i64`.
#[derive(Clone, Copy, PartialEq, Eq, Structural, Hash, Debug)]
pub enum HookError {
    /// `OUT_OF_BOUNDS` (-1): memory access out of bounds.
    OutOfBounds,
    /// `INTERNAL_ERROR` (-2): unexpected internal error.
    InternalError,
    /// `TOO_BIG` (-3): data is too large.
    TooBig,
    /// `TOO_SMALL` (-4): buffer is too small.
    TooSmall,
    /// `DOESNT_EXIST` (-5): requested item does not exist.
    DoesntExist,
    /// `NO_FREE_SLOTS` (-6): no available slots.
    NoFreeSlots,
    /// `INVALID_ARGUMENT` (-7): argument is invalid.
    InvalidArgument,
    /// `ALREADY_SET` (-8): already configured.
    AlreadySet,
    /// `PREREQUISITE_NOT_MET` (-9): prerequisite condition not satisfied.
    PrerequisiteNotMet,
    /// `FEE_TOO_LARGE` (-10): fee is too large.
    FeeTooLarge,
    /// `EMISSION_FAILURE` (-11): transaction emission failed.
    EmissionFailure,
    /// `TOO_MANY_NONCES` (-12): nonce generation limit exceeded.
    TooManyNonces,
    /// `TOO_MANY_EMITTED_TXN` (-13): emitted transaction limit exceeded.
    TooManyEmittedTxn,
    /// `NOT_IMPLEMENTED` (-14): feature not implemented (also every host-build stub's answer).
    NotImplemented,
    /// `INVALID_ACCOUNT` (-15): account ID is invalid.
    InvalidAccount,
    /// `GUARD_VIOLATION` (-16): infinite-loop guard violation.
    GuardViolation,
    /// `INVALID_FIELD` (-17): field ID is invalid.
    InvalidField,
    /// `PARSE_ERROR` (-18): failed to parse data.
    ParseError,
    /// `RC_ROLLBACK` (-19): hook execution terminated via rollback.
    RcRollback,
    /// `RC_ACCEPT` (-20): hook execution terminated via accept.
    RcAccept,
    /// `NO_SUCH_KEYLET` (-21): keylet not found.
    NoSuchKeylet,
    /// `NOT_AN_ARRAY` (-22): object is not an array.
    NotAnArray,
    /// `NOT_AN_OBJECT` (-23): object is not an object.
    NotAnObject,
    /// `INVALID_FLOAT` (-10024): XFL value is invalid.
    InvalidFloat,
    /// `DIVISION_BY_ZERO` (-25): division by zero.
    DivisionByZero,
    /// `MANTISSA_OVERSIZED` (-26): XFL mantissa too large.
    MantissaOversized,
    /// `MANTISSA_UNDERSIZED` (-27): XFL mantissa too small.
    MantissaUndersized,
    /// `EXPONENT_OVERSIZED` (-28): XFL exponent too large.
    ExponentOversized,
    /// `EXPONENT_UNDERSIZED` (-29): XFL exponent too small.
    ExponentUndersized,
    /// `XFL_OVERFLOW` (-30): XFL arithmetic overflow.
    XflOverflow,
    /// `NOT_IOU_AMOUNT` (-31): not an IOU amount.
    NotIouAmount,
    /// `NOT_AN_AMOUNT` (-32): not an amount type.
    NotAnAmount,
    /// `CANT_RETURN_NEGATIVE` (-33): cannot return a negative value.
    CantReturnNegative,
    /// `NOT_AUTHORIZED` (-34): no access permission.
    NotAuthorized,
    /// `PREVIOUS_FAILURE_PREVENTS_RETRY` (-35): a previous failure prevents retrying this operation.
    PreviousFailurePreventsRetry,
    /// `TOO_MANY_PARAMS` (-36): parameter limit exceeded.
    TooManyParams,
    /// `INVALID_TXN` (-37): transaction is invalid.
    InvalidTxn,
    /// `RESERVE_INSUFFICIENT` (-38): reserve insufficient for the operation.
    ReserveInsufficient,
    /// `COMPLEX_NOT_SUPPORTED` (-39): complex-domain result not supported.
    ComplexNotSupported,
    /// `DOES_NOT_MATCH` (-40): values do not match.
    DoesNotMatch,
    /// `INVALID_KEY` (-41): key is invalid.
    InvalidKey,
    /// `NOT_A_STRING` (-42): value is not a string.
    NotAString,
    /// `MEM_OVERLAP` (-43): memory regions overlap.
    MemOverlap,
    /// `TOO_MANY_STATE_MODIFICATIONS` (-44): state modification limit exceeded.
    TooManyStateModifications,
    /// `TOO_MANY_NAMESPACES` (-45): namespace limit exceeded.
    TooManyNamespaces,
    /// Any code without a named constant (non-negative, `-24`, below `-45`,
    /// other than `-10024`).
    Unknown(i64),
}

/// Whether `c` is one of the codes `hook/error.h` names: `-1..=-45` except the
/// `-24` gap, plus the irregular `-10024` (`INVALID_FLOAT`).
pub open spec fn is_named_code(c: i64) -> bool {
    (-45 <= c <= -1 && c != -24) || c == -10024
}

impl HookError {
    /// The raw code this error stands for.
    pub open spec fn spec_code(self) -> i64 {
        match self {
            HookError::OutOfBounds => -1i64,
            HookError::InternalError => -2i64,
            HookError::TooBig => -3i64,
            HookError::TooSmall => -4i64,
            HookError::DoesntExist => -5i64,
            HookError::NoFreeSlots => -6i64,
            HookError::InvalidArgument => -7i64,
            HookError::AlreadySet => -8i64,
            HookError::PrerequisiteNotMet => -9i64,
            HookError::FeeTooLarge => -10i64,
            HookError::EmissionFailure => -11i64,
            HookError::TooManyNonces => -12i64,
            HookError::TooManyEmittedTxn => -13i64,
            HookError::NotImplemented => -14i64,
            HookError::InvalidAccount => -15i64,
            HookError::GuardViolation => -16i64,
            HookError::InvalidField => -17i64,
            HookError::ParseError => -18i64,
            HookError::RcRollback => -19i64,
            HookError::RcAccept => -20i64,
            HookError::NoSuchKeylet => -21i64,
            HookError::NotAnArray => -22i64,
            HookError::NotAnObject => -23i64,
            HookError::InvalidFloat => -10024i64,
            HookError::DivisionByZero => -25i64,
            HookError::MantissaOversized => -26i64,
            HookError::MantissaUndersized => -27i64,
            HookError::ExponentOversized => -28i64,
            HookError::ExponentUndersized => -29i64,
            HookError::XflOverflow => -30i64,
            HookError::NotIouAmount => -31i64,
            HookError::NotAnAmount => -32i64,
            HookError::CantReturnNegative => -33i64,
            HookError::NotAuthorized => -34i64,
            HookError::PreviousFailurePreventsRetry => -35i64,
            HookError::TooManyParams => -36i64,
            HookError::InvalidTxn => -37i64,
            HookError::ReserveInsufficient => -38i64,
            HookError::ComplexNotSupported => -39i64,
            HookError::DoesNotMatch => -40i64,
            HookError::InvalidKey => -41i64,
            HookError::NotAString => -42i64,
            HookError::MemOverlap => -43i64,
            HookError::TooManyStateModifications => -44i64,
            HookError::TooManyNamespaces => -45i64,
            HookError::Unknown(c) => c,
        }
    }

    /// The error a raw code decodes to: its named variant when it has one,
    /// `Unknown(c)` otherwise.
    pub open spec fn of(c: i64) -> HookError {
        match c {
            -1 => HookError::OutOfBounds,
            -2 => HookError::InternalError,
            -3 => HookError::TooBig,
            -4 => HookError::TooSmall,
            -5 => HookError::DoesntExist,
            -6 => HookError::NoFreeSlots,
            -7 => HookError::InvalidArgument,
            -8 => HookError::AlreadySet,
            -9 => HookError::PrerequisiteNotMet,
            -10 => HookError::FeeTooLarge,
            -11 => HookError::EmissionFailure,
            -12 => HookError::TooManyNonces,
            -13 => HookError::TooManyEmittedTxn,
            -14 => HookError::NotImplemented,
            -15 => HookError::InvalidAccount,
            -16 => HookError::GuardViolation,
            -17 => HookError::InvalidField,
            -18 => HookError::ParseError,
            -19 => HookError::RcRollback,
            -20 => HookError::RcAccept,
            -21 => HookError::NoSuchKeylet,
            -22 => HookError::NotAnArray,
            -23 => HookError::NotAnObject,
            -10024 => HookError::InvalidFloat,
            -25 => HookError::DivisionByZero,
            -26 => HookError::MantissaOversized,
            -27 => HookError::MantissaUndersized,
            -28 => HookError::ExponentOversized,
            -29 => HookError::ExponentUndersized,
            -30 => HookError::XflOverflow,
            -31 => HookError::NotIouAmount,
            -32 => HookError::NotAnAmount,
            -33 => HookError::CantReturnNegative,
            -34 => HookError::NotAuthorized,
            -35 => HookError::PreviousFailurePreventsRetry,
            -36 => HookError::TooManyParams,
            -37 => HookError::InvalidTxn,
            -38 => HookError::ReserveInsufficient,
            -39 => HookError::ComplexNotSupported,
            -40 => HookError::DoesNotMatch,
            -41 => HookError::InvalidKey,
            -42 => HookError::NotAString,
            -43 => HookError::MemOverlap,
            -44 => HookError::TooManyStateModifications,
            -45 => HookError::TooManyNamespaces,
            _ => HookError::Unknown(c),
        }
    }

    /// A named code is never carried by `Unknown`.
    pub open spec fn is_canonical(self) -> bool {
        match self {
            HookError::Unknown(c) => !is_named_code(c),
            _ => true,
        }
    }

    /// The raw `i64` code this error wraps — the exact inverse of
    /// [`HookError::from_code`].
    #[verifier::when_used_as_spec(spec_code)]
    pub fn code(self) -> (c: i64)
        ensures
            c == self.spec_code(),
    {
        match self {
            HookError::OutOfBounds => -1i64,
            HookError::InternalError => -2i64,
            HookError::TooBig => -3i64,
            HookError::TooSmall => -4i64,
            HookError::DoesntExist => -5i64,
            HookError::NoFreeSlots => -6i64,
            HookError::InvalidArgument => -7i64,
            HookError::AlreadySet => -8i64,
            HookError::PrerequisiteNotMet => -9i64,
            HookError::FeeTooLarge => -10i64,
            HookError::EmissionFailure => -11i64,
            HookError::TooManyNonces => -12i64,
            HookError::TooManyEmittedTxn => -13i64,
            HookError::NotImplemented => -14i64,
            HookError::InvalidAccount => -15i64,
            HookError::GuardViolation => -16i64,
            HookError::InvalidField => -17i64,
            HookError::ParseError => -18i64,
            HookError::RcRollback => -19i64,
            HookError::RcAccept => -20i64,
            HookError::NoSuchKeylet => -21i64,
            HookError::NotAnArray => -22i64,
            HookError::NotAnObject => -23i64,
            HookError::InvalidFloat => -10024i64,
            HookError::DivisionByZero => -25i64,
            HookError::MantissaOversized => -26i64,
            HookError::MantissaUndersized => -27i64,
            HookError::ExponentOversized => -28i64,
            HookError::ExponentUndersized => -29i64,
            HookError::XflOverflow => -30i64,
            HookError::NotIouAmount => -31i64,
            HookError::NotAnAmount => -32i64,
            HookError::CantReturnNegative => -33i64,
            HookError::NotAuthorized => -34i64,
            HookError::PreviousFailurePreventsRetry => -35i64,
            HookError::TooManyParams => -36i64,
            HookError::InvalidTxn => -37i64,
            HookError::ReserveInsufficient => -38i64,
            HookError::ComplexNotSupported => -39i64,
            HookError::DoesNotMatch => -40i64,
            HookError::InvalidKey => -41i64,
            HookError::NotAString => -42i64,
            HookError::MemOverlap => -43i64,
            HookError::TooManyStateModifications => -44i64,
            HookError::TooManyNamespaces => -45i64,
            HookError::Unknown(c) => c,
        }
    }

    /// Decodes a raw Hook API return code into its error value.
    pub fn from_code(c: i64) -> (e: HookError)
        ensures
            e == HookError::of(c),
            e.code() == c,
            e.is_canonical(),
    {
        match c {
            -1 => HookError::OutOfBounds,
            -2 => HookError::InternalError,
            -3 => HookError::TooBig,
            -4 => HookError::TooSmall,
            -5 => HookError::DoesntExist,
            -6 => HookError::NoFreeSlots,
            -7 => HookError::InvalidArgument,
            -8 => HookError::AlreadySet,
            -9 => HookError::PrerequisiteNotMet,
            -10 => HookError::FeeTooLarge,
            -11 => HookError::EmissionFailure,
            -12 => HookError::TooManyNonces,
            -13 => HookError::TooManyEmittedTxn,
            -14 => HookError::NotImplemented,
            -15 => HookError::InvalidAccount,
            -16 => HookError::GuardViolation,
            -17 => HookError::InvalidField,
            -18 => HookError::ParseError,
            -19 => HookError::RcRollback,
            -20 => HookError::RcAccept,
            -21 => HookError::NoSuchKeylet,
            -22 => HookError::NotAnArray,
            -23 => HookError::NotAnObject,
            -10024 => HookError::InvalidFloat,
            -25 => HookError::DivisionByZero,
            -26 => HookError::MantissaOversized,
            -27 => HookError::MantissaUndersized,
            -28 => HookError::ExponentOversized,
            -29 => HookError::ExponentUndersized,
            -30 => HookError::XflOverflow,
            -31 => HookError::NotIouAmount,
            -32 => HookError::NotAnAmount,
            -33 => HookError::CantReturnNegative,
            -34 => HookError::NotAuthorized,
            -35 => HookError::PreviousFailurePreventsRetry,
            -36 => HookError::TooManyParams,
            -37 => HookError::InvalidTxn,
            -38 => HookError::ReserveInsufficient,
            -39 => HookError::ComplexNotSupported,
            -40 => HookError::DoesNotMatch,
            -41 => HookError::InvalidKey,
            -42 => HookError::NotAString,
            -43 => HookError::MemOverlap,
            -44 => HookError::TooManyStateModifications,
            -45 => HookError::TooManyNamespaces,
            _ => HookError::Unknown(c),
        }
    }

    /// The decoded kind of this error, for exhaustive dispatch: the named
    /// kind whose code is `self.code()`, or [`HookErrorKind::Unknown`] when
    /// the code has no name. Depends on the code alone.
    pub fn kind(self) -> (k: HookErrorKind)
        ensures
            is_named_code(self.code()) ==> k.named_code() == Some(self.code()),
            !is_named_code(self.code()) <==> k == HookErrorKind::Unknown,
    {
        let e = HookError::from_code(self.code());
        match e {
            HookError::OutOfBounds => HookErrorKind::OutOfBounds,
            HookError::InternalError => HookErrorKind::InternalError,
            HookError::TooBig => HookErrorKind::TooBig,
            HookError::TooSmall => HookErrorKind::TooSmall,
            HookError::DoesntExist => HookErrorKind::DoesntExist,
            HookError::NoFreeSlots => HookErrorKind::NoFreeSlots,
            HookError::InvalidArgument => HookErrorKind::InvalidArgument,
            HookError::AlreadySet => HookErrorKind::AlreadySet,
            HookError::PrerequisiteNotMet => HookErrorKind::PrerequisiteNotMet,
            HookError::FeeTooLarge => HookErrorKind::FeeTooLarge,
            HookError::EmissionFailure => HookErrorKind::EmissionFailure,
            HookError::TooManyNonces => HookErrorKind::TooManyNonces,
            HookError::TooManyEmittedTxn => HookErrorKind::TooManyEmittedTxn,
            HookError::NotImplemented => HookErrorKind::NotImplemented,
            HookError::InvalidAccount => HookErrorKind::InvalidAccount,
            HookError::GuardViolation => HookErrorKind::GuardViolation,
            HookError::InvalidField => HookErrorKind::InvalidField,
            HookError::ParseError => HookErrorKind::ParseError,
            HookError::RcRollback => HookErrorKind::RcRollback,
            HookError::RcAccept => HookErrorKind::RcAccept,
            HookError::NoSuchKeylet => HookErrorKind::NoSuchKeylet,
            HookError::NotAnArray => HookErrorKind::NotAnArray,
            HookError::NotAnObject => HookErrorKind::NotAnObject,
            HookError::InvalidFloat => HookErrorKind::InvalidFloat,
            HookError::DivisionByZero => HookErrorKind::DivisionByZero,
            HookError::MantissaOversized => HookErrorKind::MantissaOversized,
            HookError::MantissaUndersized => HookErrorKind::MantissaUndersized,
            HookError::ExponentOversized => HookErrorKind::ExponentOversized,
            HookError::ExponentUndersized => HookErrorKind::ExponentUndersized,
            HookError::XflOverflow => HookErrorKind::XflOverflow,
            HookError::NotIouAmount => HookErrorKind::NotIouAmount,
            HookError::NotAnAmount => HookErrorKind::NotAnAmount,
            HookError::CantReturnNegative => HookErrorKind::CantReturnNegative,
            HookError::NotAuthorized => HookErrorKind::NotAuthorized,
            HookError::PreviousFailurePreventsRetry => HookErrorKind::PreviousFailurePreventsRetry,
            HookError::TooManyParams => HookErrorKind::TooManyParams,
            HookError::InvalidTxn => HookErrorKind::InvalidTxn,
            HookError::ReserveInsufficient => HookErrorKind::ReserveInsufficient,
            HookError::ComplexNotSupported => HookErrorKind::ComplexNotSupported,
            HookError::DoesNotMatch => HookErrorKind::DoesNotMatch,
            HookError::InvalidKey => HookErrorKind::InvalidKey,
            HookError::NotAString => HookErrorKind::NotAString,
            HookError::MemOverlap => HookErrorKind::MemOverlap,
            HookError::TooManyStateModifications => HookErrorKind::TooManyStateModifications,
            HookError::TooManyNamespaces => HookErrorKind::TooManyNamespaces,
            HookError::Unknown(_) => HookErrorKind::Unknown,
        }
    }
}

impl From<i64> for HookError {
    /// Builds a `HookError` from a raw Hook API return code — see
    /// [`HookError::from_code`].
    fn from(c: i64) -> (e: HookError) {
        HookError::from_code(c)
    }
}

impl vstd::std_specs::convert::FromSpecImpl<i64> for HookError {
    open spec fn obeys_from_spec() -> bool {
        true
    }

    open spec fn from_spec(c: i64) -> HookError {
        HookError::of(c)
    }
}

/// The payload-free kind of a [`HookError`]: one variant per named code, plus
/// [`HookErrorKind::Unknown`].
#[derive(Debug, Clone, Copy, PartialEq, Eq, Structural, Hash)]
pub enum HookErrorKind {
    /// `OUT_OF_BOUNDS` (-1): memory access out of bounds.
    OutOfBounds,
    /// `INTERNAL_ERROR` (-2): unexpected internal error.
    InternalError,
    /// `TOO_BIG` (-3): data is too large.
    TooBig,
    /// `TOO_SMALL` (-4): buffer is too small.
    TooSmall,
    /// `DOESNT_EXIST` (-5): requested item does not exist.
    DoesntExist,
    /// `NO_FREE_SLOTS` (-6): no available slots.
    NoFreeSlots,
    /// `INVALID_ARGUMENT` (-7): argument is invalid.
    InvalidArgument,
    /// `ALREADY_SET` (-8): already configured.
    AlreadySet,
    /// `PREREQUISITE_NOT_MET` (-9): prerequisite condition not satisfied.
    PrerequisiteNotMet,
    /// `FEE_TOO_LARGE` (-10): fee is too large.
    FeeTooLarge,
    /// `EMISSION_FAILURE` (-11): transaction emission failed.
    EmissionFailure,
    /// `TOO_MANY_NONCES` (-12): nonce generation limit exceeded.
    TooManyNonces,
    /// `TOO_MANY_EMITTED_TXN` (-13): emitted transaction limit exceeded.
    TooManyEmittedTxn,
    /// `NOT_IMPLEMENTED` (-14): feature not implemented (also every host-build stub's answer).
    NotImplemented,
    /// `INVALID_ACCOUNT` (-15): account ID is invalid.
    InvalidAccount,
    /// `GUARD_VIOLATION` (-16): infinite-loop guard violation.
    GuardViolation,
    /// `INVALID_FIELD` (-17): field ID is invalid.
    InvalidField,
    /// `PARSE_ERROR` (-18): failed to parse data.
    ParseError,
    /// `RC_ROLLBACK` (-19): hook execution terminated via rollback.
    RcRollback,
    /// `RC_ACCEPT` (-20): hook execution terminated via accept.
    RcAccept,
    /// `NO_SUCH_KEYLET` (-21): keylet not found.
    NoSuchKeylet,
    /// `NOT_AN_ARRAY` (-22): object is not an array.
    NotAnArray,
    /// `NOT_AN_OBJECT` (-23): object is not an object.
    NotAnObject,
    /// `INVALID_FLOAT` (-10024): XFL value is invalid.
    InvalidFloat,
    /// `DIVISION_BY_ZERO` (-25): division by zero.
    DivisionByZero,
    /// `MANTISSA_OVERSIZED` (-26): XFL mantissa too large.
    MantissaOversized,
    /// `MANTISSA_UNDERSIZED` (-27): XFL mantissa too small.
    MantissaUndersized,
    /// `EXPONENT_OVERSIZED` (-28): XFL exponent too large.
    ExponentOversized,
    /// `EXPONENT_UNDERSIZED` (-29): XFL exponent too small.
    ExponentUndersized,
    /// `XFL_OVERFLOW` (-30): XFL arithmetic overflow.
    XflOverflow,
    /// `NOT_IOU_AMOUNT` (-31): not an IOU amount.
    NotIouAmount,
    /// `NOT_AN_AMOUNT` (-32): not an amount type.
    NotAnAmount,
    /// `CANT_RETURN_NEGATIVE` (-33): cannot return a negative value.
    CantReturnNegative,
    /// `NOT_AUTHORIZED` (-34): no access permission.
    NotAuthorized,
    /// `PREVIOUS_FAILURE_PREVENTS_RETRY` (-35): a previous failure prevents retrying this operation.
    PreviousFailurePreventsRetry,
    /// `TOO_MANY_PARAMS` (-36): parameter limit exceeded.
    TooManyParams,
    /// `INVALID_TXN` (-37): transaction is invalid.
    InvalidTxn,
    /// `RESERVE_INSUFFICIENT` (-38): reserve insufficient for the operation.
    ReserveInsufficient,
    /// `COMPLEX_NOT_SUPPORTED` (-39): complex-domain result not supported.
    ComplexNotSupported,
    /// `DOES_NOT_MATCH` (-40): values do not match.
    DoesNotMatch,
    /// `INVALID_KEY` (-41): key is invalid.
    InvalidKey,
    /// `NOT_A_STRING` (-42): value is not a string.
    NotAString,
    /// `MEM_OVERLAP` (-43): memory regions overlap.
    MemOverlap,
    /// `TOO_MANY_STATE_MODIFICATIONS` (-44): state modification limit exceeded.
    TooManyStateModifications,
    /// `TOO_MANY_NAMESPACES` (-45): namespace limit exceeded.
    TooManyNamespaces,
    /// Any code without a named constant.
    Unknown,
}

impl HookErrorKind {
    /// The code this kind names, `None` for [`HookErrorKind::Unknown`].
    pub open spec fn named_code(self) -> Option<i64> {
        match self {
            HookErrorKind::OutOfBounds => Some(-1i64),
            HookErrorKind::InternalError => Some(-2i64),
            HookErrorKind::TooBig => Some(-3i64),
            HookErrorKind::TooSmall => Some(-4i64),
            HookErrorKind::DoesntExist => Some(-5i64),
            HookErrorKind::NoFreeSlots => Some(-6i64),
            HookErrorKind::InvalidArgument => Some(-7i64),
            HookErrorKind::AlreadySet => Some(-8i64),
            HookErrorKind::PrerequisiteNotMet => Some(-9i64),
            HookErrorKind::FeeTooLarge => Some(-10i64),
            HookErrorKind::EmissionFailure => Some(-11i64),
            HookErrorKind::TooManyNonces => Some(-12i64),
            HookErrorKind::TooManyEmittedTxn => Some(-13i64),
            HookErrorKind::NotImplemented => Some(-14i64),
            HookErrorKind::InvalidAccount => Some(-15i64),
            HookErrorKind::GuardViolation => Some(-16i64),
            HookErrorKind::InvalidField => Some(-17i64),
            HookErrorKind::ParseError => Some(-18i64),
            HookErrorKind::RcRollback => Some(-19i64),
            HookErrorKind::RcAccept => Some(-20i64),
            HookErrorKind::NoSuchKeylet => Some(-21i64),
            HookErrorKind::NotAnArray => Some(-22i64),
            HookErrorKind::NotAnObject => Some(-23i64),
            HookErrorKind::InvalidFloat => Some(-10024i64),
            HookErrorKind::DivisionByZero => Some(-25i64),
            HookErrorKind::MantissaOversized => Some(-26i64),
            HookErrorKind::MantissaUndersized => Some(-27i64),
            HookErrorKind::ExponentOversized => Some(-28i64),
            HookErrorKind::ExponentUndersized => Some(-29i64),
            HookErrorKind::XflOverflow => Some(-30i64),
            HookErrorKind::NotIouAmount => Some(-31i64),
            HookErrorKind::NotAnAmount => Some(-32i64),
            HookErrorKind::CantReturnNegative => Some(-33i64),
            HookErrorKind::NotAuthorized => Some(-34i64),
            HookErrorKind::PreviousFailurePreventsRetry => Some(-35i64),
            HookErrorKind::TooManyParams => Some(-36i64),
            HookErrorKind::InvalidTxn => Some(-37i64),
            HookErrorKind::ReserveInsufficient => Some(-38i64),
            HookErrorKind::ComplexNotSupported => Some(-39i64),
            HookErrorKind::DoesNotMatch => Some(-40i64),
            HookErrorKind::InvalidKey => Some(-41i64),
            HookErrorKind::NotAString => Some(-42i64),
            HookErrorKind::MemOverlap => Some(-43i64),
            HookErrorKind::TooManyStateModifications => Some(-44i64),
            HookErrorKind::TooManyNamespaces => Some(-45i64),
            HookErrorKind::Unknown => None,
        }
    }
}

/// The result type every wrapper returns: `Ok(payload)` for a non-negative
/// Hook API return, `Err(HookError)` for a negative one.
pub type Result<T> = core::result::Result<T, HookError>;

/// What [`res`] returns for a raw code.
pub open spec fn spec_res(c: i64) -> Result<i64> {
    if c < 0 {
        Err(HookError::of(c))
    } else {
        Ok(c)
    }
}

/// Splits a raw Hook API `i64` return value by sign: negative codes become
/// the matching [`HookError`], everything else is the success payload.
pub fn res(c: i64) -> (r: Result<i64>)
    ensures
        r == spec_res(c),
{
    if c < 0 {
        Err(HookError::from_code(c))
    } else {
        Ok(c)
    }
}

/// Decoding and reading back a code is the identity, for every code.
pub proof fn lemma_code_round_trip(c: i64)
    ensures
        HookError::of(c).code() == c,
        HookError::of(c).is_canonical(),
{
}

/// A canonical error is recovered exactly from its own code.
pub proof fn lemma_error_round_trip(e: HookError)
    requires
        e.is_canonical(),
    ensures
        HookError::of(e.code()) == e,
{
}

/// Every named kind's code decodes back to an error of that same kind.
pub proof fn lemma_named_codes_map_to_their_kind(k: HookErrorKind)
    requires
        k != HookErrorKind::Unknown,
    ensures
        is_named_code(k.named_code().unwrap()),
        HookError::of(k.named_code().unwrap()).code() == k.named_code().unwrap(),
{
}

/// Two canonical errors are equal exactly when their codes are.
pub proof fn lemma_canonical_errors_equal_by_code(a: HookError, b: HookError)
    requires
        a.is_canonical(),
        b.is_canonical(),
    ensures
        (a == b) == (a.code() == b.code()),
{
    lemma_error_round_trip(a);
    lemma_error_round_trip(b);
}

} // verus!
