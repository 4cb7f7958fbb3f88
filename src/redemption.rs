//! Redemption: a holder burns units, and the asset's minted supply shrinks
//! by as much.
use vstd::prelude::*;

use crate::asset::{Asset, ErrorCode, Identity, LedgerCall};
use crate::laws::{apply_event, SupplyEvent};

verus! {

/// The accounts, the holder's balance and the moment of a redemption.
pub struct Redeem {
    pub asset: Asset,
    /// Signer who holds the units.
    pub user: Identity,
    /// The holder's unit account, burned from.
    pub user_token_account: Identity,
    /// Units in `user_token_account`, as the ledger reads at this operation.
    pub user_token_balance: u64,
    /// Time of the operation, in seconds since the epoch.
    pub now: i64,
}

/// Why a redemption of `amount` units from a holder of `balance` units is
/// refused, if it is.
pub open spec fn redeem_refusal(a: Asset, balance: u64, amount: u64) -> Option<ErrorCode> {
    if !a.is_active {
        Some(ErrorCode::AssetInactive)
    } else if amount == 0 {
        Some(ErrorCode::InvalidAmount)
    } else if balance < amount {
        Some(ErrorCode::InsufficientTokens)
    } else {
        None
    }
}

/// Burns `token_amount` of the holder's units.
///
/// The holder's balance is part of the asset's minted supply, since every
/// unit in circulation was minted through this asset and counted. Refused
/// when the asset is inactive, when the amount is zero, or when the holder
/// has fewer units than that. On success the minted supply shrinks by the
/// amount, the time of the redemption is recorded, and the caller must apply
/// the returned ledger burn.
pub fn redeem(ctx: &mut Redeem, token_amount: u64) -> (r: Result<LedgerCall, ErrorCode>)
    requires
        old(ctx).asset.wf(),
        old(ctx).user_token_balance <= old(ctx).asset.minted_supply,
    ensures
        final(ctx).asset.wf(),
        final(ctx).user == old(ctx).user,
        final(ctx).user_token_account == old(ctx).user_token_account,
        final(ctx).user_token_balance == old(ctx).user_token_balance,
        final(ctx).now == old(ctx).now,
        final(ctx).asset == apply_event(
            old(ctx).asset,
            SupplyEvent::Redeem {
                balance: old(ctx).user_token_balance,
                amount: token_amount,
                now: old(ctx).now,
            },
        ),
        match r {
            Ok(call) => {
                &&& redeem_refusal(old(ctx).asset, old(ctx).user_token_balance, token_amount).is_none()
                &&& call == (LedgerCall::Burn { from: old(ctx).user_token_account, amount: token_amount })
                &&& final(ctx).asset == old(ctx).asset.after_redeem(token_amount, old(ctx).now)
            },
            Err(e) => {
                &&& redeem_refusal(old(ctx).asset, old(ctx).user_token_balance, token_amount) == Some(e)
                &&& final(ctx).asset == old(ctx).asset
            },
        },
        old(ctx).asset.is_active && token_amount > old(ctx).user_token_balance
            ==> (r matches Err(ErrorCode::InsufficientTokens)) && final(ctx).asset == old(ctx).asset,
{
    if !ctx.asset.is_active {
        return Err(ErrorCode::AssetInactive);
    }
    if token_amount == 0 {
        return Err(ErrorCode::InvalidAmount);
    }
    if ctx.user_token_balance < token_amount {
        return Err(ErrorCode::InsufficientTokens);
    }
    ctx.asset.minted_supply = ctx.asset.minted_supply - token_amount;
    ctx.asset.last_redeem_at = ctx.now;
    Ok(LedgerCall::Burn { from: ctx.user_token_account, amount: token_amount })
}

} // verus!
