//! Keylets: which arguments each keylet kind hands to the host's
//! `util_keylet`, and the keylet its answer holds.

use vstd::prelude::*;
use crate::error::{res, HookError, Result};
use crate::types::{AccountId, CurrencyCode, IssuedAsset, Keylet};

verus! {

/// `util_keylet`'s keylet type of a hook.
pub const KEYLET_HOOK: u32 = 1;
/// `util_keylet`'s keylet type of a hook-state entry.
pub const KEYLET_HOOK_STATE: u32 = 2;
/// `util_keylet`'s keylet type of an account root.
pub const KEYLET_ACCOUNT: u32 = 3;
/// `util_keylet`'s keylet type of the amendments object.
pub const KEYLET_AMENDMENTS: u32 = 4;
/// `util_keylet`'s keylet type of a child object.
pub const KEYLET_CHILD: u32 = 5;
/// `util_keylet`'s keylet type of a skip list.
pub const KEYLET_SKIP: u32 = 6;
/// `util_keylet`'s keylet type of the fee settings.
pub const KEYLET_FEES: u32 = 7;
/// `util_keylet`'s keylet type of the negative UNL.
pub const KEYLET_NEGATIVE_UNL: u32 = 8;
/// `util_keylet`'s keylet type of a trust line.
pub const KEYLET_LINE: u32 = 9;
/// `util_keylet`'s keylet type of an offer.
pub const KEYLET_OFFER: u32 = 10;
/// `util_keylet`'s keylet type of a book quality.
pub const KEYLET_QUALITY: u32 = 11;
/// `util_keylet`'s keylet type of the emitted-transactions directory.
pub const KEYLET_EMITTED_DIR: u32 = 12;
/// `util_keylet`'s keylet type of a ticket.
pub const KEYLET_TICKET: u32 = 13;
/// `util_keylet`'s keylet type of a signer list.
pub const KEYLET_SIGNERS: u32 = 14;
/// `util_keylet`'s keylet type of a check.
pub const KEYLET_CHECK: u32 = 15;
/// `util_keylet`'s keylet type of a deposit preauthorization.
pub const KEYLET_DEPOSIT_PREAUTH: u32 = 16;
/// `util_keylet`'s keylet type of an object known by its hash.
pub const KEYLET_UNCHECKED: u32 = 17;
/// `util_keylet`'s keylet type of an owner directory.
pub const KEYLET_OWNER_DIR: u32 = 18;
/// `util_keylet`'s keylet type of a directory page.
pub const KEYLET_PAGE: u32 = 19;
/// `util_keylet`'s keylet type of an escrow.
pub const KEYLET_ESCROW: u32 = 20;
/// `util_keylet`'s keylet type of a payment channel.
pub const KEYLET_PAYCHAN: u32 = 21;
/// `util_keylet`'s keylet type of an emitted transaction.
pub const KEYLET_EMITTED: u32 = 22;
/// `util_keylet`'s keylet type of an NFT offer.
pub const KEYLET_NFT_OFFER: u32 = 23;
/// `util_keylet`'s keylet type of a hook definition.
pub const KEYLET_HOOK_DEFINITION: u32 = 24;
/// `util_keylet`'s keylet type of a hook-state directory.
pub const KEYLET_HOOK_STATE_DIR: u32 = 25;
/// `util_keylet`'s keylet type of a cron entry.
pub const KEYLET_CRON: u32 = 26;

/// One argument of a keylet, as `util_keylet` takes it: bytes (a guest
/// pointer and a length) or a plain value.
#[derive(Debug, Clone, Copy, PartialEq, Eq)]
pub enum KeyletArg {
    /// Bytes at a guest pointer, with their length.
    Bytes(u32, u32),
    /// A plain value.
    Value(u32),
}

/// The `util_keylet` slots one argument fills: pointer and length for
/// bytes, the value itself otherwise.
pub open spec fn arg_slots(a: KeyletArg) -> Seq<u32> {
    match a {
        KeyletArg::Bytes(p, l) => seq![p, l],
        KeyletArg::Value(v) => seq![v],
    }
}

/// The slots `args` fill, in order.
pub open spec fn flat_slots(args: Seq<KeyletArg>) -> Seq<u32>
    decreases args.len(),
{
    if args.len() == 0 {
        Seq::<u32>::empty()
    } else {
        flat_slots(args.drop_last()) + arg_slots(args.last())
    }
}

/// The six `util_keylet` argument slots for `args`: each argument's slots
/// in order, the rest `0`; `None` when they need more than six.
pub fn keylet_slots(args: &[KeyletArg]) -> (r: Option<[u32; 6]>)
    ensures
        flat_slots(args@).len() <= 6 ==> (r matches Some(s) && s@ == flat_slots(args@) + Seq::new(
            (6 - flat_slots(args@).len()) as nat,
            |i: int| 0u32,
        )),
        flat_slots(args@).len() > 6 ==> r is None,
{
    let mut out = [0u32; 6];
    let mut k: usize = 0;
    let mut i: usize = 0;
    while i < args.len()
        invariant
            i <= args@.len(),
            k == flat_slots(args@.subrange(0, i as int)).len(),
            k <= 6,
            out@.len() == 6,
            out@.subrange(0, k as int) == flat_slots(args@.subrange(0, i as int)),
            forall|j: int| k <= j < 6 ==> out@[j] == 0u32,
        decreases args@.len() - i,
    {
        let ghost prefix = args@.subrange(0, i as int);
        assert(args@.subrange(0, i + 1).drop_last() =~= prefix);
        assert(args@.subrange(0, i + 1).last() == args@[i as int]);
        match args[i] {
            KeyletArg::Bytes(p, l) => {
                if k + 2 > 6 {
                    proof { lemma_flat_slots_grow(args@, i as int + 1); }
                    return None;
                }
                out[k] = p;
                out[k + 1] = l;
                k = k + 2;
            },
            KeyletArg::Value(v) => {
                if k + 1 > 6 {
                    proof { lemma_flat_slots_grow(args@, i as int + 1); }
                    return None;
                }
                out[k] = v;
                k = k + 1;
            },
        }
        assert(out@.subrange(0, k as int) =~= flat_slots(args@.subrange(0, i + 1)));
        i = i + 1;
    }
    assert(args@.subrange(0, args@.len() as int) =~= args@);
    assert(out@ =~= flat_slots(args@) + Seq::new((6 - k) as nat, |j: int| 0u32)) by {
        assert(out@ =~= out@.subrange(0, k as int) + out@.subrange(k as int, 6));
    }
    Some(out)
}

/// A longer argument list fills at least as many slots as its prefix.
proof fn lemma_flat_slots_grow(args: Seq<KeyletArg>, n: int)
    requires
        0 <= n <= args.len(),
    ensures
        flat_slots(args.subrange(0, n)).len() <= flat_slots(args).len(),
    decreases args.len() - n,
{
    if n < args.len() {
        lemma_flat_slots_grow(args, n + 1);
        assert(args.subrange(0, n + 1).drop_last() =~= args.subrange(0, n));
    } else {
        assert(args.subrange(0, n) =~= args);
    }
}

/// The two `util_keylet` arguments of a skip-list keylet: the ledger index
/// and `1` for a specific ledger's list, two zeros for the recent list.
pub fn skip_components(ledger_index: Option<u32>) -> (r: (u32, u32))
    ensures
        r == (match ledger_index {
            Some(seq) => (seq, 1u32),
            None => (0u32, 0u32),
        }),
{
    match ledger_index {
        Some(seq) => (seq, 1),
        None => (0, 0),
    }
}

/// The `keylet_line` arguments for `account`'s trust line to an issued
/// asset: the account, then the asset's issuer, then its currency.
pub fn keylet_line_for_asset<'a>(account: &'a AccountId, asset: &'a IssuedAsset) -> (r: (&'a AccountId, &'a AccountId, &'a CurrencyCode))
    ensures
        *r.0 == *account,
        *r.1 == asset.issuer,
        *r.2 == asset.currency,
{
    (account, &asset.issuer, &asset.currency)
}

/// Stores the keylet of the host's `util_keylet` answer into `out`.
///
/// # Errors
///
/// The host's error for a negative answer; `out` is then unchanged.
pub fn keylet_line_for_asset_into(out: &mut Keylet, code: i64, buf: &[u8; 34]) -> (r: Result<()>)
    ensures
        code < 0 ==> r == Err::<(), HookError>(HookError::of(code)) && *final(out) == *old(out),
        code >= 0 ==> r is Ok && *final(out) == Keylet(*buf),
{
    res(code)?;
    *out = Keylet(*buf);
    Ok(())
}

} // verus!
