use rshooks::codes;
use rshooks::error::{res, HookError, HookErrorKind};

const KNOWN: &[(i64, HookError, HookErrorKind)] = &[
    (codes::OUT_OF_BOUNDS, HookError::OutOfBounds, HookErrorKind::OutOfBounds),
    (codes::INTERNAL_ERROR, HookError::InternalError, HookErrorKind::InternalError),
    (codes::TOO_BIG, HookError::TooBig, HookErrorKind::TooBig),
    (codes::TOO_SMALL, HookError::TooSmall, HookErrorKind::TooSmall),
    (codes::DOESNT_EXIST, HookError::DoesntExist, HookErrorKind::DoesntExist),
    (codes::NO_FREE_SLOTS, HookError::NoFreeSlots, HookErrorKind::NoFreeSlots),
    (codes::INVALID_ARGUMENT, HookError::InvalidArgument, HookErrorKind::InvalidArgument),
    (codes::ALREADY_SET, HookError::AlreadySet, HookErrorKind::AlreadySet),
    (codes::PREREQUISITE_NOT_MET, HookError::PrerequisiteNotMet, HookErrorKind::PrerequisiteNotMet),
    (codes::FEE_TOO_LARGE, HookError::FeeTooLarge, HookErrorKind::FeeTooLarge),
    (codes::EMISSION_FAILURE, HookError::EmissionFailure, HookErrorKind::EmissionFailure),
    (codes::TOO_MANY_NONCES, HookError::TooManyNonces, HookErrorKind::TooManyNonces),
    (codes::TOO_MANY_EMITTED_TXN, HookError::TooManyEmittedTxn, HookErrorKind::TooManyEmittedTxn),
    (codes::NOT_IMPLEMENTED, HookError::NotImplemented, HookErrorKind::NotImplemented),
    (codes::INVALID_ACCOUNT, HookError::InvalidAccount, HookErrorKind::InvalidAccount),
    (codes::GUARD_VIOLATION, HookError::GuardViolation, HookErrorKind::GuardViolation),
    (codes::INVALID_FIELD, HookError::InvalidField, HookErrorKind::InvalidField),
    (codes::PARSE_ERROR, HookError::ParseError, HookErrorKind::ParseError),
    (codes::RC_ROLLBACK, HookError::RcRollback, HookErrorKind::RcRollback),
    (codes::RC_ACCEPT, HookError::RcAccept, HookErrorKind::RcAccept),
    (codes::NO_SUCH_KEYLET, HookError::NoSuchKeylet, HookErrorKind::NoSuchKeylet),
    (codes::NOT_AN_ARRAY, HookError::NotAnArray, HookErrorKind::NotAnArray),
    (codes::NOT_AN_OBJECT, HookError::NotAnObject, HookErrorKind::NotAnObject),
    (codes::INVALID_FLOAT, HookError::InvalidFloat, HookErrorKind::InvalidFloat),
    (codes::DIVISION_BY_ZERO, HookError::DivisionByZero, HookErrorKind::DivisionByZero),
    (codes::MANTISSA_OVERSIZED, HookError::MantissaOversized, HookErrorKind::MantissaOversized),
    (codes::MANTISSA_UNDERSIZED, HookError::MantissaUndersized, HookErrorKind::MantissaUndersized),
    (codes::EXPONENT_OVERSIZED, HookError::ExponentOversized, HookErrorKind::ExponentOversized),
    (codes::EXPONENT_UNDERSIZED, HookError::ExponentUndersized, HookErrorKind::ExponentUndersized),
    (codes::XFL_OVERFLOW, HookError::XflOverflow, HookErrorKind::XflOverflow),
    (codes::NOT_IOU_AMOUNT, HookError::NotIouAmount, HookErrorKind::NotIouAmount),
    (codes::NOT_AN_AMOUNT, HookError::NotAnAmount, HookErrorKind::NotAnAmount),
    (codes::CANT_RETURN_NEGATIVE, HookError::CantReturnNegative, HookErrorKind::CantReturnNegative),
    (codes::NOT_AUTHORIZED, HookError::NotAuthorized, HookErrorKind::NotAuthorized),
    (codes::PREVIOUS_FAILURE_PREVENTS_RETRY, HookError::PreviousFailurePreventsRetry, HookErrorKind::PreviousFailurePreventsRetry),
    (codes::TOO_MANY_PARAMS, HookError::TooManyParams, HookErrorKind::TooManyParams),
    (codes::INVALID_TXN, HookError::InvalidTxn, HookErrorKind::InvalidTxn),
    (codes::RESERVE_INSUFFICIENT, HookError::ReserveInsufficient, HookErrorKind::ReserveInsufficient),
    (codes::COMPLEX_NOT_SUPPORTED, HookError::ComplexNotSupported, HookErrorKind::ComplexNotSupported),
    (codes::DOES_NOT_MATCH, HookError::DoesNotMatch, HookErrorKind::DoesNotMatch),
    (codes::INVALID_KEY, HookError::InvalidKey, HookErrorKind::InvalidKey),
    (codes::NOT_A_STRING, HookError::NotAString, HookErrorKind::NotAString),
    (codes::MEM_OVERLAP, HookError::MemOverlap, HookErrorKind::MemOverlap),
    (codes::TOO_MANY_STATE_MODIFICATIONS, HookError::TooManyStateModifications, HookErrorKind::TooManyStateModifications),
    (codes::TOO_MANY_NAMESPACES, HookError::TooManyNamespaces, HookErrorKind::TooManyNamespaces),
];

#[test]
fn round_trips_every_known_code() {
    for &(code, _, _) in KNOWN {
        assert_eq!(HookError::from(code).code(), code, "round-trip failed for {code}");
    }
}

#[test]
fn every_known_code_maps_to_its_named_constant() {
    for &(code, expected, _) in KNOWN {
        assert_eq!(HookError::from(code), expected, "wrong constant for {code}");
    }
}

#[test]
fn every_known_code_reports_its_kind() {
    for &(code, _, kind) in KNOWN {
        assert_eq!(HookError::from(code).kind(), kind, "wrong kind for {code}");
    }
}

#[test]
fn invalid_float_is_irregular() {
    assert_eq!(HookError::from(-10024), HookError::InvalidFloat);
    assert_eq!(HookError::InvalidFloat.code(), -10024);
    assert_eq!(HookError::InvalidFloat.kind(), HookErrorKind::InvalidFloat);
    let gap = HookError::from(-24);
    assert_eq!(gap.code(), -24);
    assert_eq!(gap.kind(), HookErrorKind::Unknown);
}

#[test]
fn out_of_range_codes_round_trip_as_unknown() {
    for code in [i64::MIN, -46, 0, 1, i64::MAX] {
        let err = HookError::from(code);
        assert_eq!(err.code(), code);
        assert_eq!(err.kind(), HookErrorKind::Unknown);
    }
}

#[test]
fn debug_prints_the_constant_name() {
    assert_eq!(format!("{:?}", HookError::DoesntExist), "DoesntExist");
    assert_eq!(format!("{:?}", HookError::from(-9999)), "Unknown(-9999)");
}

#[test]
fn res_splits_on_sign() {
    assert_eq!(res(0), Ok(0));
    assert_eq!(res(32), Ok(32));
    assert_eq!(res(-5), Err(HookError::DoesntExist));
}

#[test]
fn from_code_and_kind_agree_with_from() {
    assert_eq!(HookError::from_code(-7), HookError::InvalidArgument);
    assert_eq!(HookError::from_code(-7).kind(), HookErrorKind::InvalidArgument);
    assert_eq!(HookError::from_code(5), HookError::Unknown(5));
    assert_eq!(HookError::Unknown(5).code(), 5);
}

#[test]
fn error_layout_is_a_tag_beside_the_code() {
    assert_eq!(core::mem::size_of::<HookError>(), 16);
    assert_eq!(core::mem::size_of::<core::result::Result<i64, HookError>>(), 16);
}

#[test]
fn canonical_errors_compare_by_code_and_a_hand_built_unknown_does_not() {
    assert_eq!(HookError::from_code(-5), HookError::DoesntExist);
    assert_eq!(HookError::from_code(-5).code(), HookError::DoesntExist.code());
    assert_ne!(HookError::Unknown(-5), HookError::DoesntExist);
    assert_eq!(HookError::Unknown(-5).code(), -5);
    assert_eq!(HookError::from_code(HookError::Unknown(-5).code()), HookError::DoesntExist);
}
