//! Typed entry-return values: [`Accept`], [`Rollback`] and [`HookResult`],
//! the sealed [`EntryReturn`] conversion an entry's return value goes
//! through, and [`EmitOutcome`] for a callback's outcome argument.
//!
//! `Ok(Accept)` ends the hook through the host's `accept` call and
//! `Err(Rollback)` through `rollback`; [`EntryReturn::finish`] says which
//! call to make with which message and code.

use vstd::prelude::*;

verus! {

/// A successful exit: the message and code handed to the host's `accept`.
#[derive(Debug, Clone, Copy, PartialEq, Eq)]
pub struct Accept {
    msg: &'static [u8],
    code: i64,
}

impl Accept {
    /// The message.
    pub closed spec fn spec_msg(&self) -> Seq<u8> {
        self.msg@
    }

    /// The code.
    pub closed spec fn spec_code(&self) -> i64 {
        self.code
    }

    /// A successful exit with an explicit message and code.
    pub fn new(msg: &'static [u8], code: i64) -> (a: Accept)
        ensures
            a.spec_msg() == msg@,
            a.spec_code() == code,
    {
        Accept { msg, code }
    }

    /// A successful exit with an empty message.
    pub fn from_code(code: i64) -> (a: Accept)
        ensures
            a.spec_msg() == Seq::<u8>::empty(),
            a.spec_code() == code,
    {
        let msg: &'static [u8] = &[];
        assert(msg@ =~= Seq::<u8>::empty());
        Accept { msg, code }
    }

    /// The message handed to the host's `accept`.
    pub fn msg(&self) -> (m: &'static [u8])
        ensures
            m@ == self.spec_msg(),
    {
        self.msg
    }

    /// The code handed to the host's `accept`.
    pub fn code(&self) -> (c: i64)
        ensures
            c == self.spec_code(),
    {
        self.code
    }
}

/// A failed exit: the message and code handed to the host's `rollback`.
/// There is deliberately no conversion from a Hook API error: the host's
/// error code is not the hook's verdict.
#[derive(Debug, Clone, Copy, PartialEq, Eq)]
pub struct Rollback {
    msg: &'static [u8],
    code: i64,
}

impl Rollback {
    /// The message.
    pub closed spec fn spec_msg(&self) -> Seq<u8> {
        self.msg@
    }

    /// The code.
    pub closed spec fn spec_code(&self) -> i64 {
        self.code
    }

    /// A failed exit with an explicit message and code.
    pub fn new(msg: &'static [u8], code: i64) -> (r: Rollback)
        ensures
            r.spec_msg() == msg@,
            r.spec_code() == code,
    {
        Rollback { msg, code }
    }

    /// A failed exit with an empty message.
    pub fn from_code(code: i64) -> (r: Rollback)
        ensures
            r.spec_msg() == Seq::<u8>::empty(),
            r.spec_code() == code,
    {
        let msg: &'static [u8] = &[];
        assert(msg@ =~= Seq::<u8>::empty());
        Rollback { msg, code }
    }

    /// The message handed to the host's `rollback`.
    pub fn msg(&self) -> (m: &'static [u8])
        ensures
            m@ == self.spec_msg(),
    {
        self.msg
    }

    /// The code handed to the host's `rollback`.
    pub fn code(&self) -> (c: i64)
        ensures
            c == self.spec_code(),
    {
        self.code
    }
}

/// Ends the hook on an error: the value on `Ok`, and on `Err(code)` a
/// rollback carrying `msg` and that code (an error enum's code is its
/// `i64` conversion).
pub fn exit_on_err<T>(msg: &'static [u8], result: core::result::Result<T, i64>) -> (r: core::result::Result<
    T,
    Rollback,
>)
    ensures
        match result {
            Ok(v) => r == Ok::<T, Rollback>(v),
            Err(code) => r matches Err(rb) && rb.spec_msg() == msg@ && rb.spec_code() == code,
        },
{
    match result {
        Ok(v) => Ok(v),
        Err(code) => Err(Rollback::new(msg, code)),
    }
}

/// What a hook entry returns.
pub type HookResult = core::result::Result<Accept, Rollback>;

/// The host call that ends the hook.
#[derive(Debug, Clone, Copy, PartialEq, Eq)]
pub enum ExitCall {
    /// `accept(msg, code)`.
    Accept(&'static [u8], i64),
    /// `rollback(msg, code)`.
    Rollback(&'static [u8], i64),
}

/// Restricts [`EntryReturn`] to [`HookResult`].
pub trait Sealed {

}

impl Sealed for HookResult {

}

/// Converts an entry's return value into the host call that ends the hook.
pub trait EntryReturn: Sealed {
    /// Whether `call` is the exit this value asks for.
    spec fn exits_with(&self, call: ExitCall) -> bool;

    /// The host call that ends the hook.
    fn finish(self) -> (call: ExitCall)
        ensures
            self.exits_with(call),
    ;
}

impl EntryReturn for HookResult {
    open spec fn exits_with(&self, call: ExitCall) -> bool {
        match *self {
            Ok(a) => call matches ExitCall::Accept(m, c) && m@ == a.spec_msg() && c == a.spec_code(),
            Err(r) => call matches ExitCall::Rollback(m, c) && m@ == r.spec_msg() && c == r.spec_code(),
        }
    }

    fn finish(self) -> (call: ExitCall) {
        match self {
            Ok(a) => ExitCall::Accept(a.msg(), a.code()),
            Err(r) => ExitCall::Rollback(r.msg(), r.code()),
        }
    }
}

/// A callback's outcome argument: whether the emitted transaction was
/// applied or expired unapplied.
#[derive(Debug, Clone, Copy, PartialEq, Eq, Structural)]
pub enum EmitOutcome {
    /// Applied (`what == 0`).
    Applied,
    /// Expired unapplied (`what != 0`).
    EmitFailure,
}

impl From<u32> for EmitOutcome {
    fn from(what: u32) -> (o: EmitOutcome) {
        if what == 0 {
            EmitOutcome::Applied
        } else {
            EmitOutcome::EmitFailure
        }
    }
}

impl vstd::std_specs::convert::FromSpecImpl<u32> for EmitOutcome {
    open spec fn obeys_from_spec() -> bool {
        true
    }

    open spec fn from_spec(what: u32) -> EmitOutcome {
        if what == 0 {
            EmitOutcome::Applied
        } else {
            EmitOutcome::EmitFailure
        }
    }
}

} // verus!
