use rshooks::codes;
use rshooks::decl::{HookParam, OtxnParam, ParamDefault, ParamRequired, ParamSpec, State, StateSpec};
use rshooks::error::HookError;
use rshooks::state::{EncodedStateKey, StateKeyEncode};

// --- Mock specs exercising the constant key/name path ---

struct MockConstState;

impl StateSpec for MockConstState {
    type Value = u32;
    type KeyArgs = ();

    fn encode_key(_args: &()) -> EncodedStateKey {
        b"MK".encode()
    }
}

struct MockConstParam;

impl ParamSpec for MockConstParam {
    type Value = [u8; 4];
    type NameArgs = ();

    fn name_bytes(_args: &()) -> Vec<u8> {
        b"MK".to_vec()
    }
}

impl ParamDefault for MockConstParam {
    fn default_value() -> [u8; 4] {
        [1, 2, 3, 4]
    }
}

impl ParamRequired for MockConstParam {}

// --- Mock specs exercising the keyed `.at(args)` path ---

struct MockKeyedState;

impl StateSpec for MockKeyedState {
    type Value = u32;
    type KeyArgs = u8;

    fn encode_key(args: &u8) -> EncodedStateKey {
        [*args].encode()
    }
}

struct MockKeyedParam;

impl ParamSpec for MockKeyedParam {
    type Value = [u8; 4];
    type NameArgs = u8;

    fn name_bytes(args: &u8) -> Vec<u8> {
        vec![*args]
    }
}

const N: i64 = codes::NOT_IMPLEMENTED;

#[test]
fn handles_are_zero_sized() {
    assert_eq!(core::mem::size_of::<State<u32, MockConstState>>(), 0);
    assert_eq!(core::mem::size_of::<HookParam<u32, MockConstParam>>(), 0);
    assert_eq!(core::mem::size_of::<OtxnParam<u32, MockConstParam>>(), 0);
}

#[test]
#[allow(clippy::clone_on_copy)]
fn handles_are_clone_and_copy() {
    let a: State<u32, MockConstState> = State::new();
    let b = a;
    let _ = a; // still usable: `State` is `Copy`.
    let _ = b.clone();
}

#[test]
fn const_state_smoke_not_implemented_on_host() {
    let entry: State<u32, MockConstState> = State::new();
    let raw = [0u8; 32];
    assert_eq!(entry.get(N, &raw), Err(HookError::NotImplemented));
    assert_eq!(entry.set(&1, N), Err(HookError::NotImplemented));
    assert_eq!(entry.update(N, &raw, |_| 1), Err(HookError::NotImplemented));
    assert_eq!(entry.delete(N), Err(HookError::NotImplemented));
    assert_eq!(entry.get_foreign(N, &raw), Err(HookError::NotImplemented));
    assert_eq!(entry.set_foreign(&1, N), Err(HookError::NotImplemented));
}

#[test]
fn state_at_unit_matches_const_key_path() {
    let handle: State<u32, MockConstState> = State::new();
    let via_at = handle.at(());
    let raw = [0u8; 32];
    assert_eq!(via_at.get(N, &raw), handle.get(N, &raw));
    assert_eq!(via_at.key().as_ref(), handle.key().as_ref());
}

#[test]
fn const_hook_param_smoke_not_implemented_on_host() {
    let param: HookParam<[u8; 4], MockConstParam> = HookParam::new();
    let buf = [0u8; 5];
    assert_eq!(param.get(N, &buf), Err(HookError::NotImplemented));
    assert_eq!(param.get_or_default(N, &buf), Err(HookError::NotImplemented));
    assert_eq!(param.get_required(N, &buf), Err(HookError::NotImplemented));
}

#[test]
fn const_otxn_param_smoke_not_implemented_on_host() {
    let param: OtxnParam<[u8; 4], MockConstParam> = OtxnParam::new();
    let buf = [0u8; 4];
    assert_eq!(param.get(N, &buf), Err(HookError::NotImplemented));
    assert_eq!(param.get_or_default(N, &buf), Err(HookError::NotImplemented));
    assert_eq!(param.get_required(N, &buf), Err(HookError::NotImplemented));
}

#[test]
fn keyed_state_at_smoke_not_implemented_on_host() {
    let handle: State<u32, MockKeyedState> = State::new();
    let entry = handle.at(7);
    let raw = [0u8; 32];
    assert_eq!(entry.get(N, &raw), Err(HookError::NotImplemented));
    assert_eq!(entry.set(&1, N), Err(HookError::NotImplemented));
    assert_eq!(entry.update(N, &raw, |_| 1), Err(HookError::NotImplemented));
    assert_eq!(entry.delete(N), Err(HookError::NotImplemented));
}

#[test]
fn keyed_hook_param_at_smoke_not_implemented_on_host() {
    let handle: HookParam<[u8; 4], MockKeyedParam> = HookParam::new();
    let bound = handle.at(7);
    assert_eq!(bound.get(N, &[0u8; 5]), Err(HookError::NotImplemented));
}

#[test]
fn keyed_otxn_param_at_smoke_not_implemented_on_host() {
    let handle: OtxnParam<[u8; 4], MockKeyedParam> = OtxnParam::new();
    let bound = handle.at(7);
    assert_eq!(bound.get(N, &[0u8; 4]), Err(HookError::NotImplemented));
}

#[test]
fn different_keyed_args_encode_to_different_keys() {
    assert_ne!(MockKeyedState::encode_key(&1).as_ref(), MockKeyedState::encode_key(&2).as_ref());
}

#[test]
fn params_tell_absence_from_decode_failure() {
    let param: HookParam<[u8; 4], MockConstParam> = HookParam::new();
    let pbuf = [9u8; 5];
    assert_eq!(param.name(), b"MK".to_vec());
    assert_eq!(param.get(4, &pbuf), Ok(Some([9u8; 4])));
    assert_eq!(param.get(codes::DOESNT_EXIST, &pbuf), Ok(None));
    assert_eq!(param.get_or_default(codes::DOESNT_EXIST, &pbuf), Ok([1, 2, 3, 4]));
    assert_eq!(param.get_or_default(3, &pbuf), Err(HookError::TooSmall));
    // A longer value, truncated by the host to the buffer, is no `[u8; 4]`.
    assert_eq!(param.get_or_default(5, &pbuf), Err(HookError::TooSmall));
    assert_eq!(param.get_required(codes::DOESNT_EXIST, &pbuf), Err(HookError::DoesntExist));
    assert_eq!(param.get_required(4, &pbuf), Ok([9u8; 4]));
    let buf = [9u8; 4];
    let bound = OtxnParam::<[u8; 4], MockKeyedParam>::new().at(5);
    assert_eq!(bound.name(), vec![5u8]);
    assert_eq!(bound.get(4, &buf), Ok(Some([9u8; 4])));
}

#[test]
fn state_handles_decode_and_update() {
    let entry: State<u32, MockConstState> = State::new();
    let mut raw = [0u8; 32];
    raw[..4].copy_from_slice(&41u32.to_le_bytes());
    assert_eq!(entry.get(4, &raw), Ok(Some(41)));
    assert_eq!(entry.update(4, &raw, |cur| cur.unwrap_or(0) + 1), Ok(42));
    assert_eq!(entry.key().as_ref(), b"MK");
    assert_eq!(entry.get(codes::DOESNT_EXIST, &raw), Ok(None));
}
