//! Amount serialization through the host: an amount is encoded as an
//! issued amount when both a currency and an issuer are given, as a native
//! one when neither is; one without the other has no meaning and is refused
//! without a call.

use vstd::prelude::*;
use crate::error::{HookError, Result};
use crate::reply::{reply_usize, res_usize};
use crate::types::{AccountId, CurrencyCode};

verus! {

/// Whether a currency and an issuer are given together or not at all.
pub open spec fn issue_consistent(currency: Option<&CurrencyCode>, issuer: Option<&AccountId>) -> bool {
    currency.is_some() == issuer.is_some()
}

/// The outcome of `float_sto` for an amount with this currency and issuer,
/// given the host's answer `code` (not consulted for a mixed pair, where no
/// call is made).
///
/// # Errors
///
/// [`HookError::InvalidArgument`] for a currency without an issuer or an
/// issuer without a currency; otherwise the host's error.
pub fn float_sto(currency: Option<&CurrencyCode>, issuer: Option<&AccountId>, code: i64) -> (r: Result<usize>)
    ensures
        !issue_consistent(currency, issuer) ==> r == Err::<usize, HookError>(HookError::InvalidArgument),
        issue_consistent(currency, issuer) ==> r == reply_usize(code),
{
    match (currency, issuer) {
        (Some(_), Some(_)) | (None, None) => res_usize(code),
        _ => Err(HookError::InvalidArgument),
    }
}

} // verus!
