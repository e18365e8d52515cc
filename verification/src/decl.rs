//! Typed declaration handles: [`State`], [`HookParam`] and [`OtxnParam`].
//!
//! A handle is a zero-sized value whose second type parameter, a marker
//! implementing [`StateSpec`] or [`ParamSpec`], supplies the key or name
//! and fixes the value type. Handles forward to [`mod@crate::state`] and the
//! parameter decoders: the caller makes the host call for the handle's key
//! or name and passes the answer in.
//!
//! For parameters, absence and a failed decode stay apart: `get` answers
//! `Ok(None)` only for an absent parameter, `get_or_default` substitutes the
//! default only then, and `get_required` maps only absence to
//! [`HookError::DoesntExist`].

use vstd::prelude::*;
use core::marker::PhantomData;
use crate::api::hook_ctx::{hook_param_opt, hook_param_opt_reply, param_buf_len, param_opt_reply};
use crate::api::otxn::otxn_param_opt;
use crate::convert::{FixedRead, FromBytes, ToBytes};
use crate::error::{HookError, Result};
use crate::state::{
    state_delete, state_foreign_get, state_foreign_set_loose, state_get,
    state_read_reply, state_set_loose, state_update_loose, state_write_reply, update_reply,
    EncodedStateKey, MAX_TYPED_STATE_LEN,
};

verus! {

/// How a [`State`] marker encodes its key.
pub trait StateSpec {
    /// The entry's value type.
    type Value: ToBytes + FromBytes;

    /// `()` for a constant key; the key arguments of a keyed family.
    type KeyArgs;

    /// The key bytes for `args`.
    open spec fn key_of(args: &Self::KeyArgs) -> Seq<u8> {
        Seq::empty()
    }

    /// Encodes the key for `args`.
    fn encode_key(args: &Self::KeyArgs) -> (k: EncodedStateKey)
        ensures
            k.bytes() == Self::key_of(args),
    ;
}

/// How a [`HookParam`]/[`OtxnParam`] marker encodes its parameter name.
pub trait ParamSpec {
    /// The parameter's value type.
    type Value: FixedRead;

    /// `()` for a literal name; the name arguments of a name family.
    type NameArgs;

    /// The name bytes for `args`.
    open spec fn name_of(args: &Self::NameArgs) -> Seq<u8> {
        Seq::empty()
    }

    /// Encodes the name for `args`.
    fn name_bytes(args: &Self::NameArgs) -> (name: Vec<u8>)
        ensures
            name@ == Self::name_of(args),
    ;
}

/// A default substituted for an absent parameter.
pub trait ParamDefault: ParamSpec {
    /// The default.
    open spec fn default_spec() -> Self::Value {
        vstd::pervasive::arbitrary()
    }

    /// The default.
    fn default_value() -> (v: Self::Value)
        ensures
            v == Self::default_spec(),
    ;
}

/// Marks a parameter whose absence is an error.
pub trait ParamRequired: ParamSpec {

}

/// What `get_or_default` gives: the present value, the default when absent,
/// and the read's error otherwise.
pub open spec fn or_default<T>(read: Result<Option<T>>, default: T) -> Result<T> {
    match read {
        Ok(Some(v)) => Ok(v),
        Ok(None) => Ok(default),
        Err(e) => Err(e),
    }
}

/// What `get_required` gives: the present value, [`HookError::DoesntExist`]
/// when absent, and the read's error otherwise.
pub open spec fn required<T>(read: Result<Option<T>>) -> Result<T> {
    match read {
        Ok(Some(v)) => Ok(v),
        Ok(None) => Err(HookError::DoesntExist),
        Err(e) => Err(e),
    }
}

/// A default stands in only for an absent value, and a required read fails
/// with [`HookError::DoesntExist`] only for one: a read that failed keeps
/// its own error either way, and a present value passes through unchanged.
pub proof fn lemma_absence_only_is_defaulted<T>(read: Result<Option<T>>, default: T)
    ensures
        read is Err ==> or_default(read, default) == Err::<T, HookError>(read->Err_0)
            && required(read) == Err::<T, HookError>(read->Err_0),
        read == Ok::<Option<T>, HookError>(None) ==> or_default(read, default) == Ok::<T, HookError>(
            default,
        ) && required(read) == Err::<T, HookError>(HookError::DoesntExist),
        read matches Ok(Some(v)) ==> or_default(read, default) == Ok::<T, HookError>(v)
            && required(read) == Ok::<T, HookError>(v),
{
}

/// A handle on a declared hook-state entry.
pub struct State<V, S> {
    _marker: PhantomData<(V, S)>,
}

impl<V, S> State<V, S> {
    /// A new handle; touches no state by itself.
    pub fn new() -> (h: State<V, S>) {
        State { _marker: PhantomData }
    }
}

impl<V, S> Clone for State<V, S> {
    fn clone(&self) -> (h: Self) {
        State { _marker: PhantomData }
    }
}

impl<V, S> Copy for State<V, S> {

}

impl<V, S> Default for State<V, S> {
    fn default() -> (h: Self) {
        State { _marker: PhantomData }
    }
}

impl<V: ToBytes + FromBytes, S: StateSpec<Value = V, KeyArgs = ()>> State<V, S> {
    /// The key to hand to the host.
    pub fn key(&self) -> (k: EncodedStateKey)
        ensures
            k.bytes() == S::key_of(&()),
    {
        S::encode_key(&())
    }

    /// Reads the entry from the host's `state` answer; `Ok(None)` when it
    /// does not exist.
    ///
    /// # Errors
    ///
    /// As [`crate::state::state_get`].
    pub fn get(&self, code: i64, raw: &[u8]) -> (r: Result<Option<V>>)
        requires
            raw@.len() == MAX_TYPED_STATE_LEN,
        ensures
            r == state_read_reply::<V>(code, raw@),
    {
        state_get(code, raw)
    }

    /// The outcome of writing `value`, from the host's `state_set` answer.
    ///
    /// # Errors
    ///
    /// As [`crate::state::state_set_loose`].
    pub fn set(&self, value: &V, code: i64) -> (r: Result<usize>)
        ensures
            r == state_write_reply::<V>(code),
    {
        state_set_loose(value, code)
    }

    /// The value a read-modify-write stores: `f` applied to what the host's
    /// `state` answer decodes to.
    ///
    /// # Errors
    ///
    /// The read's error.
    pub fn update<F: FnOnce(Option<V>) -> V>(&self, code: i64, raw: &[u8], f: F) -> (r: Result<V>)
        requires
            raw@.len() == MAX_TYPED_STATE_LEN,
            forall|x: Option<V>| f.requires((x,)),
        ensures
            update_reply::<V, F>(code, raw@, f, r),
    {
        state_update_loose(code, raw, f)
    }

    /// The outcome of deleting the entry, from the host's `state_set`
    /// answer.
    ///
    /// # Errors
    ///
    /// The host's error.
    pub fn delete(&self, code: i64) -> (r: Result<()>)
        ensures
            code < 0 ==> r == Err::<(), HookError>(HookError::of(code)),
            code >= 0 ==> r is Ok,
    {
        state_delete(code)
    }

    /// Reads the entry of another namespace or account from the host's
    /// `state_foreign` answer.
    ///
    /// # Errors
    ///
    /// As [`crate::state::state_get`].
    pub fn get_foreign(&self, code: i64, raw: &[u8]) -> (r: Result<Option<V>>)
        requires
            raw@.len() == MAX_TYPED_STATE_LEN,
        ensures
            r == state_read_reply::<V>(code, raw@),
    {
        state_foreign_get(code, raw)
    }

    /// The outcome of writing `value` into another namespace or account,
    /// from the host's `state_foreign_set` answer.
    ///
    /// # Errors
    ///
    /// As [`crate::state::state_set_loose`].
    pub fn set_foreign(&self, value: &V, code: i64) -> (r: Result<usize>)
        ensures
            r == state_write_reply::<V>(code),
    {
        state_foreign_set_loose(value, code)
    }
}

impl<V, S: StateSpec<Value = V>> State<V, S> {
    /// Binds key arguments, giving an entry with the same operations.
    pub fn at(&self, args: S::KeyArgs) -> (e: StateEntry<V>)
        ensures
            e.spec_key().bytes() == S::key_of(&args),
    {
        StateEntry { key: S::encode_key(&args), _marker: PhantomData }
    }
}

/// A state entry bound to an encoded key (see [`State::at`]).
pub struct StateEntry<V> {
    key: EncodedStateKey,
    _marker: PhantomData<V>,
}

impl<V> Clone for StateEntry<V> {
    fn clone(&self) -> (e: Self)
        ensures
            e.spec_key() == self.spec_key(),
    {
        StateEntry { key: self.key, _marker: PhantomData }
    }
}

impl<V> Copy for StateEntry<V> {

}

impl<V> StateEntry<V> {
    /// The bound key.
    pub closed spec fn spec_key(&self) -> EncodedStateKey {
        self.key
    }

    /// The key to hand to the host.
    pub fn key(&self) -> (k: EncodedStateKey)
        ensures
            k == self.spec_key(),
    {
        self.key
    }
}

impl<V: ToBytes + FromBytes> StateEntry<V> {
    /// Reads the entry from the host's `state` answer; `Ok(None)` when it
    /// does not exist.
    ///
    /// # Errors
    ///
    /// As [`crate::state::state_get`].
    pub fn get(&self, code: i64, raw: &[u8]) -> (r: Result<Option<V>>)
        requires
            raw@.len() == MAX_TYPED_STATE_LEN,
        ensures
            r == state_read_reply::<V>(code, raw@),
    {
        state_get(code, raw)
    }

    /// The outcome of writing `value`, from the host's `state_set` answer.
    ///
    /// # Errors
    ///
    /// As [`crate::state::state_set_loose`].
    pub fn set(&self, value: &V, code: i64) -> (r: Result<usize>)
        ensures
            r == state_write_reply::<V>(code),
    {
        state_set_loose(value, code)
    }

    /// The value a read-modify-write stores.
    ///
    /// # Errors
    ///
    /// The read's error.
    pub fn update<F: FnOnce(Option<V>) -> V>(&self, code: i64, raw: &[u8], f: F) -> (r: Result<V>)
        requires
            raw@.len() == MAX_TYPED_STATE_LEN,
            forall|x: Option<V>| f.requires((x,)),
        ensures
            update_reply::<V, F>(code, raw@, f, r),
    {
        state_update_loose(code, raw, f)
    }

    /// The outcome of deleting the entry.
    ///
    /// # Errors
    ///
    /// The host's error.
    pub fn delete(&self, code: i64) -> (r: Result<()>)
        ensures
            code < 0 ==> r == Err::<(), HookError>(HookError::of(code)),
            code >= 0 ==> r is Ok,
    {
        state_delete(code)
    }

    /// Reads the entry of another namespace or account.
    ///
    /// # Errors
    ///
    /// As [`crate::state::state_get`].
    pub fn get_foreign(&self, code: i64, raw: &[u8]) -> (r: Result<Option<V>>)
        requires
            raw@.len() == MAX_TYPED_STATE_LEN,
        ensures
            r == state_read_reply::<V>(code, raw@),
    {
        state_foreign_get(code, raw)
    }

    /// The outcome of writing `value` into another namespace or account.
    ///
    /// # Errors
    ///
    /// As [`crate::state::state_set_loose`].
    pub fn set_foreign(&self, value: &V, code: i64) -> (r: Result<usize>)
        ensures
            r == state_write_reply::<V>(code),
    {
        state_foreign_set_loose(value, code)
    }
}

/// A handle on a declared parameter read with `hook_param`.
pub struct HookParam<V, S> {
    _marker: PhantomData<(V, S)>,
}

impl<V, S> HookParam<V, S> {
    /// A new handle; reads nothing by itself.
    pub fn new() -> (h: HookParam<V, S>) {
        HookParam { _marker: PhantomData }
    }
}

impl<V, S> Clone for HookParam<V, S> {
    fn clone(&self) -> (h: Self) {
        HookParam { _marker: PhantomData }
    }
}

impl<V, S> Copy for HookParam<V, S> {

}

impl<V, S> Default for HookParam<V, S> {
    fn default() -> (h: Self) {
        HookParam { _marker: PhantomData }
    }
}

impl<V: FixedRead, S: ParamSpec<Value = V, NameArgs = ()>> HookParam<V, S> {
    /// The parameter name to hand to the host.
    pub fn name(&self) -> (name: Vec<u8>)
        ensures
            name@ == S::name_of(&()),
    {
        S::name_bytes(&())
    }

    /// The parameter, from the host's `hook_param` answer and the
    /// [`param_buf_len`]-byte buffer it wrote; `Ok(None)` when
    /// absent.
    ///
    /// # Errors
    ///
    /// The host's error, or a present value of the wrong size.
    pub fn get(&self, code: i64, buf: &[u8]) -> (r: Result<Option<V>>)
        requires
            buf@.len() == param_buf_len::<V>(),
        ensures
            r == hook_param_opt_reply::<V>(code, buf@),
    {
        hook_param_opt(code, buf)
    }
}

impl<V: FixedRead, S: ParamSpec<Value = V, NameArgs = ()> + ParamDefault> HookParam<V, S> {
    /// The parameter, or the default when absent.
    ///
    /// # Errors
    ///
    /// As [`HookParam::get`]; a failed decode is never masked by the default.
    pub fn get_or_default(&self, code: i64, buf: &[u8]) -> (r: Result<V>)
        requires
            buf@.len() == param_buf_len::<V>(),
        ensures
            r == or_default(hook_param_opt_reply::<V>(code, buf@), S::default_spec()),
    {
        match self.get(code, buf)? {
            Some(v) => Ok(v),
            None => Ok(S::default_value()),
        }
    }
}

impl<V: FixedRead, S: ParamSpec<Value = V, NameArgs = ()> + ParamRequired> HookParam<V, S> {
    /// The parameter, with absence as [`HookError::DoesntExist`].
    ///
    /// # Errors
    ///
    /// [`HookError::DoesntExist`] when absent; otherwise as [`HookParam::get`].
    pub fn get_required(&self, code: i64, buf: &[u8]) -> (r: Result<V>)
        requires
            buf@.len() == param_buf_len::<V>(),
        ensures
            r == required(hook_param_opt_reply::<V>(code, buf@)),
    {
        match self.get(code, buf)? {
            Some(v) => Ok(v),
            None => Err(HookError::DoesntExist),
        }
    }
}

impl<V, S: ParamSpec<Value = V>> HookParam<V, S> {
    /// Binds name arguments, giving a handle with the same operations.
    pub fn at(&self, args: S::NameArgs) -> (p: HookParamAt<V, S>)
        ensures
            p.spec_args() == args,
    {
        HookParamAt { args, _marker: PhantomData }
    }
}

/// A [`HookParam`] bound to name arguments (see [`HookParam::at`]).
pub struct HookParamAt<V, S: ParamSpec> {
    args: S::NameArgs,
    _marker: PhantomData<V>,
}

impl<V, S: ParamSpec> HookParamAt<V, S> {
    /// The bound name arguments.
    pub closed spec fn spec_args(&self) -> S::NameArgs {
        self.args
    }
}

impl<V: FixedRead, S: ParamSpec<Value = V>> HookParamAt<V, S> {
    /// The parameter name to hand to the host.
    pub fn name(&self) -> (name: Vec<u8>)
        ensures
            name@ == S::name_of(&self.spec_args()),
    {
        S::name_bytes(&self.args)
    }

    /// The parameter, from the host's `hook_param` answer; `Ok(None)` when
    /// absent.
    ///
    /// # Errors
    ///
    /// The host's error, or a present value of the wrong size.
    pub fn get(&self, code: i64, buf: &[u8]) -> (r: Result<Option<V>>)
        requires
            buf@.len() == param_buf_len::<V>(),
        ensures
            r == hook_param_opt_reply::<V>(code, buf@),
    {
        hook_param_opt(code, buf)
    }

    /// The parameter, or the default when absent.
    ///
    /// # Errors
    ///
    /// As [`HookParamAt::get`]; a failed decode is never masked by the default.
    pub fn get_or_default(&self, code: i64, buf: &[u8]) -> (r: Result<V>)
        where S: ParamDefault,
        requires
            buf@.len() == param_buf_len::<V>(),
        ensures
            r == or_default(hook_param_opt_reply::<V>(code, buf@), S::default_spec()),
    {
        match self.get(code, buf)? {
            Some(v) => Ok(v),
            None => Ok(S::default_value()),
        }
    }

    /// The parameter, with absence as [`HookError::DoesntExist`].
    ///
    /// # Errors
    ///
    /// [`HookError::DoesntExist`] when absent; otherwise as [`HookParamAt::get`].
    pub fn get_required(&self, code: i64, buf: &[u8]) -> (r: Result<V>)
        where S: ParamRequired,
        requires
            buf@.len() == param_buf_len::<V>(),
        ensures
            r == required(hook_param_opt_reply::<V>(code, buf@)),
    {
        match self.get(code, buf)? {
            Some(v) => Ok(v),
            None => Err(HookError::DoesntExist),
        }
    }
}

/// A handle on a declared parameter read with `otxn_param`.
pub struct OtxnParam<V, S> {
    _marker: PhantomData<(V, S)>,
}

impl<V, S> OtxnParam<V, S> {
    /// A new handle; reads nothing by itself.
    pub fn new() -> (h: OtxnParam<V, S>) {
        OtxnParam { _marker: PhantomData }
    }
}

impl<V, S> Clone for OtxnParam<V, S> {
    fn clone(&self) -> (h: Self) {
        OtxnParam { _marker: PhantomData }
    }
}

impl<V, S> Copy for OtxnParam<V, S> {

}

impl<V, S> Default for OtxnParam<V, S> {
    fn default() -> (h: Self) {
        OtxnParam { _marker: PhantomData }
    }
}

impl<V: FixedRead, S: ParamSpec<Value = V, NameArgs = ()>> OtxnParam<V, S> {
    /// The parameter name to hand to the host.
    pub fn name(&self) -> (name: Vec<u8>)
        ensures
            name@ == S::name_of(&()),
    {
        S::name_bytes(&())
    }

    /// The parameter, from the host's `otxn_param` answer and the
    /// [`FixedRead::READ_LEN`]-byte buffer it wrote; `Ok(None)` when
    /// absent.
    ///
    /// # Errors
    ///
    /// The host's error, or a present value of the wrong size.
    pub fn get(&self, code: i64, buf: &[u8]) -> (r: Result<Option<V>>)
        requires
            buf@.len() == V::READ_LEN,
        ensures
            r == param_opt_reply::<V>(code, buf@),
    {
        otxn_param_opt(code, buf)
    }
}

impl<V: FixedRead, S: ParamSpec<Value = V, NameArgs = ()> + ParamDefault> OtxnParam<V, S> {
    /// The parameter, or the default when absent.
    ///
    /// # Errors
    ///
    /// As [`OtxnParam::get`]; a failed decode is never masked by the default.
    pub fn get_or_default(&self, code: i64, buf: &[u8]) -> (r: Result<V>)
        requires
            buf@.len() == V::READ_LEN,
        ensures
            r == or_default(param_opt_reply::<V>(code, buf@), S::default_spec()),
    {
        match self.get(code, buf)? {
            Some(v) => Ok(v),
            None => Ok(S::default_value()),
        }
    }
}

impl<V: FixedRead, S: ParamSpec<Value = V, NameArgs = ()> + ParamRequired> OtxnParam<V, S> {
    /// The parameter, with absence as [`HookError::DoesntExist`].
    ///
    /// # Errors
    ///
    /// [`HookError::DoesntExist`] when absent; otherwise as [`OtxnParam::get`].
    pub fn get_required(&self, code: i64, buf: &[u8]) -> (r: Result<V>)
        requires
            buf@.len() == V::READ_LEN,
        ensures
            r == required(param_opt_reply::<V>(code, buf@)),
    {
        match self.get(code, buf)? {
            Some(v) => Ok(v),
            None => Err(HookError::DoesntExist),
        }
    }
}

impl<V, S: ParamSpec<Value = V>> OtxnParam<V, S> {
    /// Binds name arguments, giving a handle with the same operations.
    pub fn at(&self, args: S::NameArgs) -> (p: OtxnParamAt<V, S>)
        ensures
            p.spec_args() == args,
    {
        OtxnParamAt { args, _marker: PhantomData }
    }
}

/// A [`OtxnParam`] bound to name arguments (see [`OtxnParam::at`]).
pub struct OtxnParamAt<V, S: ParamSpec> {
    args: S::NameArgs,
    _marker: PhantomData<V>,
}

impl<V, S: ParamSpec> OtxnParamAt<V, S> {
    /// The bound name arguments.
    pub closed spec fn spec_args(&self) -> S::NameArgs {
        self.args
    }
}

impl<V: FixedRead, S: ParamSpec<Value = V>> OtxnParamAt<V, S> {
    /// The parameter name to hand to the host.
    pub fn name(&self) -> (name: Vec<u8>)
        ensures
            name@ == S::name_of(&self.spec_args()),
    {
        S::name_bytes(&self.args)
    }

    /// The parameter, from the host's `otxn_param` answer; `Ok(None)` when
    /// absent.
    ///
    /// # Errors
    ///
    /// The host's error, or a present value of the wrong size.
    pub fn get(&self, code: i64, buf: &[u8]) -> (r: Result<Option<V>>)
        requires
            buf@.len() == V::READ_LEN,
        ensures
            r == param_opt_reply::<V>(code, buf@),
    {
        otxn_param_opt(code, buf)
    }

    /// The parameter, or the default when absent.
    ///
    /// # Errors
    ///
    /// As [`OtxnParamAt::get`]; a failed decode is never masked by the default.
    pub fn get_or_default(&self, code: i64, buf: &[u8]) -> (r: Result<V>)
        where S: ParamDefault,
        requires
            buf@.len() == V::READ_LEN,
        ensures
            r == or_default(param_opt_reply::<V>(code, buf@), S::default_spec()),
    {
        match self.get(code, buf)? {
            Some(v) => Ok(v),
            None => Ok(S::default_value()),
        }
    }

    /// The parameter, with absence as [`HookError::DoesntExist`].
    ///
    /// # Errors
    ///
    /// [`HookError::DoesntExist`] when absent; otherwise as [`OtxnParamAt::get`].
    pub fn get_required(&self, code: i64, buf: &[u8]) -> (r: Result<V>)
        where S: ParamRequired,
        requires
            buf@.len() == V::READ_LEN,
        ensures
            r == required(param_opt_reply::<V>(code, buf@)),
    {
        match self.get(code, buf)? {
            Some(v) => Ok(v),
            None => Err(HookError::DoesntExist),
        }
    }
}

} // verus!
