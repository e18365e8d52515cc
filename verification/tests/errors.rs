use rshooks::exit::{exit_on_err, Rollback};

/// Positive codes, no messages.
#[derive(Debug, Clone, Copy, PartialEq, Eq)]
pub enum SampleError {
    First,
    Second,
}

impl SampleError {
    pub fn code(self) -> i64 {
        match self {
            SampleError::First => 1,
            SampleError::Second => 2,
        }
    }
}

impl From<SampleError> for i64 {
    fn from(value: SampleError) -> i64 {
        value.code()
    }
}

impl From<SampleError> for Rollback {
    fn from(value: SampleError) -> Rollback {
        Rollback::from_code(value.code())
    }
}

/// Negative codes, no messages.
#[derive(Debug, Clone, Copy, PartialEq, Eq)]
enum NegativeError {
    First,
    Second,
}

impl NegativeError {
    fn code(self) -> i64 {
        match self {
            NegativeError::First => -1,
            NegativeError::Second => -2,
        }
    }
}

impl From<NegativeError> for i64 {
    fn from(value: NegativeError) -> i64 {
        value.code()
    }
}

impl From<NegativeError> for Rollback {
    fn from(value: NegativeError) -> Rollback {
        Rollback::from_code(value.code())
    }
}

/// One variant with a message, one without.
#[derive(Debug, Clone, Copy, PartialEq, Eq)]
enum MixedMsgError {
    WithMsg,
    WithoutMsg,
}

impl MixedMsgError {
    fn code(self) -> i64 {
        match self {
            MixedMsgError::WithMsg => 1,
            MixedMsgError::WithoutMsg => 2,
        }
    }
}

impl From<MixedMsgError> for Rollback {
    fn from(value: MixedMsgError) -> Rollback {
        let msg: &'static [u8] = match value {
            MixedMsgError::WithMsg => b"mixed: with message",
            MixedMsgError::WithoutMsg => b"",
        };
        Rollback::new(msg, value.code())
    }
}

#[test]
fn code_matches_discriminant() {
    assert_eq!(SampleError::First.code(), 1);
    assert_eq!(SampleError::Second.code(), 2);
}

#[test]
fn into_i64_matches_code() {
    assert_eq!(i64::from(SampleError::First), SampleError::First.code());
    assert_eq!(i64::from(SampleError::Second), SampleError::Second.code());
}

#[test]
fn negative_discriminants_round_trip() {
    assert_eq!(NegativeError::First.code(), -1);
    assert_eq!(i64::from(NegativeError::Second), -2);
}

#[test]
fn derives_are_usable() {
    let a = SampleError::First;
    let b = a;
    assert_eq!(a, b);
    assert_eq!(format!("{a:?}"), "First");
}

#[test]
fn exit_on_err_returns_ok_value() {
    let result: Result<u32, SampleError> = Ok(7);
    let value = exit_on_err(b"unused", result.map_err(i64::from));
    assert_eq!(value, Ok(7));
}

#[test]
fn exit_on_err_rolls_back_with_the_message_and_the_code() {
    let result: Result<u32, SampleError> = Err(SampleError::Second);
    let r = exit_on_err(b"firewall: blocked", result.map_err(i64::from));
    assert_eq!(r, Err(Rollback::new(b"firewall: blocked", 2)));
    let rb = r.unwrap_err();
    assert_eq!(rb.msg(), b"firewall: blocked");
    assert_eq!(rb.code(), 2);
}

#[test]
fn clause_less_enum_still_converts_to_rollback_with_empty_msg() {
    let r: Rollback = SampleError::First.into();
    assert_eq!(r, Rollback::from_code(1));
    let r: Rollback = NegativeError::Second.into();
    assert_eq!(r, Rollback::from_code(-2));
    assert_eq!(NegativeError::First.code(), -1);
}

#[test]
fn msg_clause_feeds_rollback_message() {
    assert_eq!(MixedMsgError::WithMsg.code(), 1);
    let r: Rollback = MixedMsgError::WithMsg.into();
    assert_eq!(r, Rollback::new(b"mixed: with message", 1));
}

#[test]
fn variant_without_msg_clause_falls_back_to_empty_in_a_mixed_enum() {
    let r: Rollback = MixedMsgError::WithoutMsg.into();
    assert_eq!(r, Rollback::from_code(2));
}
