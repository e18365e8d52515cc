//! Protocol value types: fixed-size byte newtypes (`AccountId`, `Hash`, ...),
//! the `XFL` decimal float's raw bit pattern, typed field codes (`SField<T>`)
//! and the marker types that say what a field or slot holds.

use vstd::prelude::*;
use core::marker::PhantomData;

verus! {

/// Length of an account ID.
pub const ACC_ID_LEN: usize = 20;

/// Length of a currency code.
pub const CURRENCY_CODE_LEN: usize = 20;

/// Length of a 256-bit hash.
pub const HASH_LEN: usize = 32;

/// Length of a serialized native (XAH) amount.
pub const NATIVE_AMOUNT_LEN: usize = 8;

/// Length of a serialized issued (IOU) amount.
pub const IOU_AMOUNT_LEN: usize = 48;

/// Length of a full hook-state key.
pub const STATE_KEY_LEN: usize = 32;

/// Length of a keylet.
pub const KEYLET_LEN: usize = 34;

/// Largest `sfEmitDetails` field the host writes (a callback-exporting hook's
/// emit details).
pub const EMIT_DETAILS_MAX_LEN: usize = 138;

/// A 20-byte account ID.
#[derive(Clone, Copy, PartialEq, Eq, Hash, Debug)]
pub struct AccountId(pub [u8; 20]);

/// A 20-byte currency code.
#[derive(Clone, Copy, PartialEq, Eq, Hash, Debug)]
pub struct CurrencyCode(pub [u8; 20]);

/// A 32-byte hash.
#[derive(Clone, Copy, PartialEq, Eq, Hash, Debug)]
pub struct Hash(pub [u8; 32]);

/// A full 32-byte hook-state key.
#[derive(Clone, Copy, PartialEq, Eq, Hash, Debug)]
pub struct StateKey(pub [u8; 32]);

/// A 32-byte hook-state namespace.
#[derive(Clone, Copy, PartialEq, Eq, Hash, Debug)]
pub struct NameSpace(pub [u8; 32]);

/// A 34-byte keylet.
#[derive(Clone, Copy, PartialEq, Eq, Hash, Debug)]
pub struct Keylet(pub [u8; 34]);

/// A 32-byte nonce for an emitted transaction.
#[derive(Clone, Copy, PartialEq, Eq, Hash, Debug)]
pub struct Nonce(pub [u8; 32]);

/// An 8-byte serialized native amount.
#[derive(Clone, Copy, PartialEq, Eq, Hash, Debug)]
pub struct NativeAmount(pub [u8; 8]);

/// A 48-byte serialized issued amount.
#[derive(Clone, Copy, PartialEq, Eq, Hash, Debug)]
pub struct IouAmount(pub [u8; 48]);

/// An issued asset's identity: currency and issuer.
#[derive(Clone, Copy, PartialEq, Eq, Hash, Debug)]
pub struct IssuedAsset {
    /// The currency code.
    pub currency: CurrencyCode,
    /// The issuing account.
    pub issuer: AccountId,
}

impl AccountId {
    /// The all-zero account ID.
    pub fn zeroed() -> (r: AccountId)
        ensures
            r.0@ == Seq::new(20, |i: int| 0u8),
    {
        let r = AccountId([0u8; 20]);
        assert(r.0@ =~= Seq::new(20, |i: int| 0u8));
        r
    }
}

impl Default for AccountId {
    fn default() -> (r: AccountId)
        ensures
            r.0@ == Seq::new(20, |i: int| 0u8),
    {
        AccountId::zeroed()
    }
}

impl CurrencyCode {
    /// The all-zero currency code (the native currency).
    pub fn zeroed() -> (r: CurrencyCode)
        ensures
            r.0@ == Seq::new(20, |i: int| 0u8),
    {
        let r = CurrencyCode([0u8; 20]);
        assert(r.0@ =~= Seq::new(20, |i: int| 0u8));
        r
    }
}

impl Default for CurrencyCode {
    fn default() -> (r: CurrencyCode)
        ensures
            r.0@ == Seq::new(20, |i: int| 0u8),
    {
        CurrencyCode::zeroed()
    }
}

impl Hash {
    /// The all-zero hash.
    pub fn zeroed() -> (r: Hash)
        ensures
            r.0@ == Seq::new(32, |i: int| 0u8),
    {
        let r = Hash([0u8; 32]);
        assert(r.0@ =~= Seq::new(32, |i: int| 0u8));
        r
    }
}

impl Default for Hash {
    fn default() -> (r: Hash)
        ensures
            r.0@ == Seq::new(32, |i: int| 0u8),
    {
        Hash::zeroed()
    }
}

impl StateKey {
    /// The all-zero state key.
    pub fn zeroed() -> (r: StateKey)
        ensures
            r.0@ == Seq::new(32, |i: int| 0u8),
    {
        let r = StateKey([0u8; 32]);
        assert(r.0@ =~= Seq::new(32, |i: int| 0u8));
        r
    }
}

impl Default for StateKey {
    fn default() -> (r: StateKey)
        ensures
            r.0@ == Seq::new(32, |i: int| 0u8),
    {
        StateKey::zeroed()
    }
}

impl From<[u8; 32]> for StateKey {
    fn from(bytes: [u8; 32]) -> (r: StateKey) {
        StateKey(bytes)
    }
}

impl vstd::std_specs::convert::FromSpecImpl<[u8; 32]> for StateKey {
    open spec fn obeys_from_spec() -> bool {
        true
    }

    open spec fn from_spec(bytes: [u8; 32]) -> StateKey {
        StateKey(bytes)
    }
}

/// An `XFL` decimal floating-point value, carried as its raw 64-bit pattern.
#[derive(Clone, Copy, PartialEq, Eq, Structural, Hash, Debug)]
pub struct XFL(pub i64);

/// The raw bit pattern of the `XFL` value one.
pub const XFL_ONE_BITS: i64 = 6089866696204910592;

impl XFL {
    /// Wraps a raw bit pattern.
    pub fn from_raw_bits(bits: i64) -> (x: XFL)
        ensures
            x.0 == bits,
    {
        XFL(bits)
    }

    /// The raw bit pattern.
    pub fn raw_bits(self) -> (bits: i64)
        ensures
            bits == self.0,
    {
        self.0
    }

    /// The value one.
    pub fn one() -> (x: XFL)
        ensures
            x.0 == XFL_ONE_BITS,
    {
        XFL(XFL_ONE_BITS)
    }
}

/// Marker: a field or slot whose contents this layer does not type.
#[derive(Clone, Copy, PartialEq, Eq, Structural, Debug)]
pub struct Opaque;

/// Marker: a serialized object (`STObject`).
#[derive(Clone, Copy, PartialEq, Eq, Structural, Debug)]
pub struct STObject;

/// Marker: a serialized array (`STArray`).
#[derive(Clone, Copy, PartialEq, Eq, Structural, Debug)]
pub struct STArray;

/// Marker: a serialized amount (`STAmount`).
#[derive(Clone, Copy, PartialEq, Eq, Structural, Debug)]
pub struct Amount;

/// Marker: a serialized issue (`STIssue`).
#[derive(Clone, Copy, PartialEq, Eq, Structural, Debug)]
pub struct Issue;

/// A field code `(type << 16) | field`, typed by the value the field holds.
/// Equality is on the code alone.
pub struct SField<T> {
    code: u32,
    _t: PhantomData<T>,
}

impl<T> SField<T> {
    /// The raw field code.
    pub closed spec fn spec_code(self) -> u32 {
        self.code
    }

    /// Wraps a raw field code.
    pub fn new(code: u32) -> (f: SField<T>)
        ensures
            f.spec_code() == code,
    {
        SField { code, _t: PhantomData }
    }

    /// The raw field code.
    pub fn code(&self) -> (c: u32)
        ensures
            c == self.spec_code(),
    {
        self.code
    }

    /// The serialized type ID (the code's high half).
    pub fn type_id(&self) -> (t: u32)
        ensures
            t == self.spec_code() / 65536,
    {
        self.code / 65536
    }
}

impl<T> Clone for SField<T> {
    fn clone(&self) -> (r: Self)
        ensures
            r.spec_code() == self.spec_code(),
    {
        SField { code: self.code, _t: PhantomData }
    }
}

} // verus!
