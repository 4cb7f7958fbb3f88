//! Transfers of units between holders.
use vstd::prelude::*;

use crate::asset::{ErrorCode, Identity, LedgerCall};

verus! {

/// The accounts of a transfer of units.
pub struct TransferFractionalTokens {
    /// Unit account that pays.
    pub from_token_account: Identity,
    /// Unit account that receives.
    pub to_token_account: Identity,
    /// Signer who holds `from_token_account`; the ledger checks that it does.
    pub from_authority: Identity,
}

/// Moves `amount` units from one holder's account to another's.
///
/// Refused only when `amount` is zero; the asset record is not touched. On
/// success the caller must apply the returned ledger transfer.
pub fn transfer_fractional_tokens(ctx: &TransferFractionalTokens, amount: u64) -> (r: Result<LedgerCall, ErrorCode>)
    ensures
        amount == 0 ==> r == Err::<LedgerCall, ErrorCode>(ErrorCode::InvalidAmount),
        amount > 0 ==> r == Ok::<LedgerCall, ErrorCode>(
            LedgerCall::Transfer {
                from: ctx.from_token_account,
                to: ctx.to_token_account,
                authority: ctx.from_authority,
                amount,
            },
        ),
{
    if amount == 0 {
        return Err(ErrorCode::InvalidAmount);
    }
    Ok(
        LedgerCall::Transfer {
            from: ctx.from_token_account,
            to: ctx.to_token_account,
            authority: ctx.from_authority,
            amount,
        },
    )
}

} // verus!
