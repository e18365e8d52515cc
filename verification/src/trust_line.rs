//! [`TrustLineView`]: a side-aware read of one trust line.
//!
//! A trust line names its two participants by canonical order (low is the
//! lexicographically smaller account ID) and keeps every per-side fact in a
//! Low/High pair. The view resolves which side an account is on once, and
//! each accessor takes the account whose fact it reports. It reports ledger
//! facts only (a limit, a freeze, deep-freeze or authorization bit), never
//! a policy.

use vstd::prelude::*;
use core::cmp::Ordering;
use crate::buf_eq::{buf_cmp_20, buf_eq_20, first_difference};
use crate::error::{res, HookError, Result};
use crate::sfield::{sfFlags, sfHighLimit, sfLowLimit};
use crate::slot_obj::{slot_reply, small_int_reply, SlotObject};
use crate::types::{AccountId, STObject, XFL};

verus! {

/// `lsfLowAuth`: the low side authorized the line.
pub const LSF_LOW_AUTH: u32 = 0x0004_0000;

/// `lsfHighAuth`: the high side authorized the line.
pub const LSF_HIGH_AUTH: u32 = 0x0008_0000;

/// `lsfLowFreeze`: the low side froze the line.
pub const LSF_LOW_FREEZE: u32 = 0x0040_0000;

/// `lsfHighFreeze`: the high side froze the line.
pub const LSF_HIGH_FREEZE: u32 = 0x0080_0000;

/// `lsfLowDeepFreeze`: the low side deep-froze the line.
pub const LSF_LOW_DEEP_FREEZE: u32 = 0x0200_0000;

/// `lsfHighDeepFreeze`: the high side deep-froze the line.
pub const LSF_HIGH_DEEP_FREEZE: u32 = 0x0400_0000;

/// Which side of a trust line an account is on.
#[derive(Debug, Clone, Copy, PartialEq, Eq, Structural)]
pub enum TrustLineSide {
    /// The lexicographically smaller account.
    Low,
    /// The lexicographically larger account.
    High,
}

/// The side-resolved facts of a trust line: its two participants and its
/// flags.
#[derive(Debug, Clone, Copy)]
pub struct LineFacts {
    /// The low account.
    pub low: AccountId,
    /// The high account.
    pub high: AccountId,
    /// The line's `sfFlags`.
    pub flags: u32,
}

/// The side `account` is on, or [`HookError::DoesNotMatch`] for an account
/// that is on neither.
pub open spec fn side_of(facts: LineFacts, account: AccountId) -> Result<TrustLineSide> {
    if account.0@ == facts.low.0@ {
        Ok(TrustLineSide::Low)
    } else if account.0@ == facts.high.0@ {
        Ok(TrustLineSide::High)
    } else {
        Err(HookError::DoesNotMatch)
    }
}

/// Whether `account`'s bit is set in the flags: `low_bit` or `high_bit` by
/// its side.
pub open spec fn side_flag(facts: LineFacts, account: AccountId, low_bit: u32, high_bit: u32) -> Result<bool> {
    match side_of(facts, account) {
        Ok(TrustLineSide::Low) => Ok(facts.flags & low_bit != 0),
        Ok(TrustLineSide::High) => Ok(facts.flags & high_bit != 0),
        Err(e) => Err(e),
    }
}

impl LineFacts {
    /// The side `account` is on.
    ///
    /// # Errors
    ///
    /// [`HookError::DoesNotMatch`] for an account on neither side.
    pub fn side(&self, account: &AccountId) -> (r: Result<TrustLineSide>)
        ensures
            r == side_of(*self, *account),
    {
        if buf_eq_20(&account.0, &self.low.0) {
            Ok(TrustLineSide::Low)
        } else if buf_eq_20(&account.0, &self.high.0) {
            Ok(TrustLineSide::High)
        } else {
            Err(HookError::DoesNotMatch)
        }
    }

    fn flag(&self, account: &AccountId, low_bit: u32, high_bit: u32) -> (r: Result<bool>)
        ensures
            r == side_flag(*self, *account, low_bit, high_bit),
    {
        let bit = match self.side(account)? {
            TrustLineSide::Low => low_bit,
            TrustLineSide::High => high_bit,
        };
        Ok(self.flags & bit != 0)
    }

    /// Whether `account` froze the line.
    ///
    /// # Errors
    ///
    /// [`HookError::DoesNotMatch`] for an account on neither side.
    pub fn is_frozen_by(&self, account: &AccountId) -> (r: Result<bool>)
        ensures
            r == side_flag(*self, *account, LSF_LOW_FREEZE, LSF_HIGH_FREEZE),
    {
        self.flag(account, LSF_LOW_FREEZE, LSF_HIGH_FREEZE)
    }

    /// Whether `account` deep-froze the line.
    ///
    /// # Errors
    ///
    /// [`HookError::DoesNotMatch`] for an account on neither side.
    pub fn is_deep_frozen_by(&self, account: &AccountId) -> (r: Result<bool>)
        ensures
            r == side_flag(*self, *account, LSF_LOW_DEEP_FREEZE, LSF_HIGH_DEEP_FREEZE),
    {
        self.flag(account, LSF_LOW_DEEP_FREEZE, LSF_HIGH_DEEP_FREEZE)
    }

    /// Whether `account` authorized the line.
    ///
    /// # Errors
    ///
    /// [`HookError::DoesNotMatch`] for an account on neither side.
    pub fn is_authorized_by(&self, account: &AccountId) -> (r: Result<bool>)
        ensures
            r == side_flag(*self, *account, LSF_LOW_AUTH, LSF_HIGH_AUTH),
    {
        self.flag(account, LSF_LOW_AUTH, LSF_HIGH_AUTH)
    }
}

/// Whether `a` orders before `b` byte by byte.
pub open spec fn lex_less(a: Seq<u8>, b: Seq<u8>) -> bool {
    exists|i: int| first_difference(a, b, i) && a[i] < b[i]
}

/// The pair `(low, high)` of two accounts in canonical order.
pub open spec fn canonical_pair(a: AccountId, b: AccountId) -> (AccountId, AccountId) {
    if lex_less(a.0@, b.0@) {
        (a, b)
    } else {
        (b, a)
    }
}

/// The two accounts in canonical order.
fn canonical(account_a: &AccountId, account_b: &AccountId) -> (r: (AccountId, AccountId))
    ensures
        r == canonical_pair(*account_a, *account_b),
{
    let r = match buf_cmp_20(&account_a.0, &account_b.0) {
        Ordering::Less => (*account_a, *account_b),
        _ => (*account_b, *account_a),
    };
    proof {
        if lex_less(account_a.0@, account_b.0@) {
            let i = choose|i: int| first_difference(account_a.0@, account_b.0@, i) && account_a.0@[i]
                < account_b.0@[i];
            if exists|j: int| first_difference(account_a.0@, account_b.0@, j) && account_a.0@[j]
                > account_b.0@[j] {
                let j = choose|j: int| first_difference(account_a.0@, account_b.0@, j)
                    && account_a.0@[j] > account_b.0@[j];
                lemma_first_difference_unique(account_a.0@, account_b.0@, i, j);
            }
        }
    }
    r
}

/// A loaded trust line: its facts and the slot holding it.
pub struct TrustLineView {
    facts: LineFacts,
    root: SlotObject<STObject>,
}

impl TrustLineView {
    /// The line's facts.
    pub closed spec fn spec_facts(&self) -> LineFacts {
        self.facts
    }

    /// The slot holding the line.
    pub closed spec fn spec_root(&self) -> SlotObject<STObject> {
        self.root
    }

    /// Loads the line between `account_a` and `account_b`, given the host's
    /// answers in call order: `keylet_line` for the two accounts and the
    /// currency, `slot_set` for that keylet, `slot_subfield` of `sfFlags` in
    /// that slot, and the as-int64 `slot` read of that child. The first
    /// negative answer is the result; later ones are then not looked at.
    ///
    /// # Errors
    ///
    /// The first host error, or [`HookError::TooBig`] for flags beyond
    /// `u32`.
    pub fn load(
        account_a: &AccountId,
        account_b: &AccountId,
        keylet_line: i64,
        slot_set: i64,
        flags_slot: i64,
        flags_value: i64,
    ) -> (r: Result<TrustLineView>)
        ensures
            keylet_line < 0 ==> r == Err::<TrustLineView, HookError>(HookError::of(keylet_line)),
            keylet_line >= 0 ==> match slot_reply::<STObject>(slot_set) {
                Err(e) => r == Err::<TrustLineView, HookError>(e),
                Ok(root) => match slot_reply::<u32>(flags_slot) {
                    Err(e) => r == Err::<TrustLineView, HookError>(e),
                    Ok(_) => match small_int_reply(flags_value, 0xFFFF_FFFF) {
                        Err(e) => r == Err::<TrustLineView, HookError>(e),
                        Ok(flags) => r matches Ok(v) && v.spec_root() == root && v.spec_facts().flags
                            == flags as u32 && (v.spec_facts().low, v.spec_facts().high)
                            == canonical_pair(*account_a, *account_b),
                    },
                },
            },
    {
        res(keylet_line)?;
        let root = SlotObject::<STObject>::from_keylet(slot_set)?;
        let flags_obj: SlotObject<u32> = root.get(crate::types::SField::<u32>::new(sfFlags), flags_slot)?;
        let flags: u32 = flags_obj.value(flags_value)?;
        let (low, high) = canonical(account_a, account_b);
        Ok(TrustLineView { facts: LineFacts { low, high, flags }, root })
    }

    /// The slot holding the line, to hand to the host.
    pub fn root_slot(&self) -> (no: u32)
        ensures
            no == self.spec_root().spec_no(),
    {
        self.root.slot_no()
    }

    /// The side `account` is on.
    ///
    /// # Errors
    ///
    /// [`HookError::DoesNotMatch`] for an account on neither side.
    pub fn side(&self, account: &AccountId) -> (r: Result<TrustLineSide>)
        ensures
            r == side_of(self.spec_facts(), *account),
    {
        self.facts.side(account)
    }

    /// The field holding `account`'s limit: `sfLowLimit` or `sfHighLimit`
    /// by its side.
    ///
    /// # Errors
    ///
    /// [`HookError::DoesNotMatch`] for an account on neither side.
    pub fn limit_field(&self, account: &AccountId) -> (r: Result<u32>)
        ensures
            r == (match side_of(self.spec_facts(), *account) {
                Ok(TrustLineSide::Low) => Ok::<u32, HookError>(sfLowLimit),
                Ok(TrustLineSide::High) => Ok::<u32, HookError>(sfHighLimit),
                Err(e) => Err::<u32, HookError>(e),
            }),
    {
        match self.facts.side(account)? {
            TrustLineSide::Low => Ok(sfLowLimit),
            TrustLineSide::High => Ok(sfHighLimit),
        }
    }

    /// `account`'s limit on the line, given the host's `slot_subfield`
    /// answer for [`TrustLineView::limit_field`] in the line's slot and the
    /// `slot_float` answer for that child.
    ///
    /// # Errors
    ///
    /// [`HookError::DoesNotMatch`] for an account on neither side, then the
    /// host's errors.
    pub fn limit_of(&self, account: &AccountId, limit_slot: i64, slot_float: i64) -> (r: Result<XFL>)
        ensures
            match side_of(self.spec_facts(), *account) {
                Err(e) => r == Err::<XFL, HookError>(e),
                Ok(_) => match slot_reply::<crate::types::Amount>(limit_slot) {
                    Err(e) => r == Err::<XFL, HookError>(e),
                    Ok(_) => if slot_float < 0 {
                        r == Err::<XFL, HookError>(HookError::of(slot_float))
                    } else {
                        r == Ok::<XFL, HookError>(XFL(slot_float))
                    },
                },
            },
    {
        let field = self.limit_field(account)?;
        let limit: SlotObject<crate::types::Amount> = self.root.get(
            crate::types::SField::<crate::types::Amount>::new(field),
            limit_slot,
        )?;
        limit.as_xfl(slot_float)
    }

    /// Whether `account` froze the line.
    ///
    /// # Errors
    ///
    /// [`HookError::DoesNotMatch`] for an account on neither side.
    pub fn is_frozen_by(&self, account: &AccountId) -> (r: Result<bool>)
        ensures
            r == side_flag(self.spec_facts(), *account, LSF_LOW_FREEZE, LSF_HIGH_FREEZE),
    {
        self.facts.is_frozen_by(account)
    }

    /// Whether `account` deep-froze the line.
    ///
    /// # Errors
    ///
    /// [`HookError::DoesNotMatch`] for an account on neither side.
    pub fn is_deep_frozen_by(&self, account: &AccountId) -> (r: Result<bool>)
        ensures
            r == side_flag(self.spec_facts(), *account, LSF_LOW_DEEP_FREEZE, LSF_HIGH_DEEP_FREEZE),
    {
        self.facts.is_deep_frozen_by(account)
    }

    /// Whether `account` authorized the line.
    ///
    /// # Errors
    ///
    /// [`HookError::DoesNotMatch`] for an account on neither side.
    pub fn is_authorized_by(&self, account: &AccountId) -> (r: Result<bool>)
        ensures
            r == side_flag(self.spec_facts(), *account, LSF_LOW_AUTH, LSF_HIGH_AUTH),
    {
        self.facts.is_authorized_by(account)
    }
}

/// Two sequences have at most one first difference.
pub proof fn lemma_first_difference_unique(a: Seq<u8>, b: Seq<u8>, i: int, j: int)
    requires
        first_difference(a, b, i),
        first_difference(a, b, j),
    ensures
        i == j,
{
    if i < j {
        assert(a.subrange(0, j)[i] == b.subrange(0, j)[i]);
    } else if j < i {
        assert(a.subrange(0, i)[j] == b.subrange(0, i)[j]);
    }
}

/// Whichever order the two participants are given in, the view resolves
/// the same low and high accounts.
pub proof fn lemma_canonical_pair_symmetric(a: AccountId, b: AccountId)
    requires
        a.0@ != b.0@,
    ensures
        canonical_pair(a, b) == canonical_pair(b, a),
{
    if lex_less(a.0@, b.0@) && lex_less(b.0@, a.0@) {
        let i = choose|i: int| first_difference(a.0@, b.0@, i) && a.0@[i] < b.0@[i];
        let j = choose|j: int| first_difference(b.0@, a.0@, j) && b.0@[j] < a.0@[j];
        assert(first_difference(a.0@, b.0@, j));
        lemma_first_difference_unique(a.0@, b.0@, i, j);
    }
    if !lex_less(a.0@, b.0@) && !lex_less(b.0@, a.0@) {
        lemma_differing_orders(a.0@, b.0@);
    }
}

/// Two different 20-byte account IDs are ordered one way or the other.
pub proof fn lemma_differing_orders(a: Seq<u8>, b: Seq<u8>)
    requires
        a.len() == 20,
        b.len() == 20,
        a != b,
    ensures
        lex_less(a, b) || lex_less(b, a),
{
    let i = lemma_first_difference_exists(a, b);
    if a[i] < b[i] {
        assert(first_difference(a, b, i) && a[i] < b[i]);
    } else {
        assert(b.subrange(0, i) == a.subrange(0, i));
        assert(first_difference(b, a, i) && b[i] < a[i]);
    }
}

/// Two different equally long sequences have a first difference.
pub proof fn lemma_first_difference_exists(a: Seq<u8>, b: Seq<u8>) -> (i: int)
    requires
        a.len() == b.len(),
        a != b,
    ensures
        first_difference(a, b, i),
    decreases a.len(),
{
    assert(a.len() > 0) by {
        if a.len() == 0 {
            assert(a =~= b);
        }
    }
    if a[0] != b[0] {
        assert(a.subrange(0, 0) =~= b.subrange(0, 0));
        0
    } else {
        let a1 = a.subrange(1, a.len() as int);
        let b1 = b.subrange(1, b.len() as int);
        assert(a1 != b1) by {
            if a1 == b1 {
                assert(a =~= seq![a[0]] + a1);
                assert(b =~= seq![b[0]] + b1);
            }
        };
        let k = lemma_first_difference_exists(a1, b1);
        assert(a.subrange(0, k + 1) =~= seq![a[0]] + a1.subrange(0, k));
        assert(b.subrange(0, k + 1) =~= seq![b[0]] + b1.subrange(0, k));
        k + 1
    }
}

} // verus!
