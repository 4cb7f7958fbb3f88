//! Supply-bounded minting of units by an asset's owner.
use vstd::prelude::*;

use crate::asset::{Asset, ErrorCode, Identity, LedgerCall};
use crate::laws::{apply_event, SupplyEvent};

verus! {

/// The accounts and the moment of an owner's mint.
pub struct MintFractionalTokens {
    pub asset: Asset,
    /// Signer who asks for the mint.
    pub authority: Identity,
    /// Unit account that receives the new units.
    pub token_account: Identity,
    /// Time of the operation, in seconds since the epoch.
    pub now: i64,
}

/// Why a mint of `amount` units asked for by `requester` is refused, if it is.
/// The checks run in this order, so the first that fails names the error.
pub open spec fn mint_refusal(a: Asset, requester: Identity, amount: u64) -> Option<ErrorCode> {
    if !a.is_active {
        Some(ErrorCode::AssetInactive)
    } else if amount == 0 {
        Some(ErrorCode::InvalidAmount)
    } else if a.minted_supply + amount > a.total_supply {
        Some(ErrorCode::SupplyExceeded)
    } else if requester != a.owner {
        Some(ErrorCode::Unauthorized)
    } else {
        None
    }
}

/// Mints `amount` new units of the asset into the requester's unit account.
///
/// Refused when the asset is inactive, when `amount` is zero, when the minted
/// supply would pass the cap (the sum is taken without overflow), or when the
/// signer is not the asset's owner. On success the minted supply grows by
/// `amount`, the time of the mint is recorded, and the caller must apply the
/// returned ledger mint.
pub fn mint_fractional_tokens(ctx: &mut MintFractionalTokens, amount: u64) -> (r: Result<LedgerCall, ErrorCode>)
    requires
        old(ctx).asset.wf(),
    ensures
        final(ctx).asset.wf(),
        final(ctx).authority == old(ctx).authority,
        final(ctx).token_account == old(ctx).token_account,
        final(ctx).now == old(ctx).now,
        final(ctx).asset == apply_event(
            old(ctx).asset,
            SupplyEvent::Mint { requester: old(ctx).authority, amount, now: old(ctx).now },
        ),
        match r {
            Ok(call) => {
                &&& mint_refusal(old(ctx).asset, old(ctx).authority, amount).is_none()
                &&& call == (LedgerCall::MintTo { to: old(ctx).token_account, amount })
                &&& final(ctx).asset == old(ctx).asset.after_mint(amount, old(ctx).now)
            },
            Err(e) => {
                &&& mint_refusal(old(ctx).asset, old(ctx).authority, amount) == Some(e)
                &&& final(ctx).asset == old(ctx).asset
            },
        },
        old(ctx).asset.is_active && old(ctx).asset.minted_supply + amount > old(ctx).asset.total_supply
            ==> (r matches Err(ErrorCode::SupplyExceeded)) && final(ctx).asset == old(ctx).asset,
        old(ctx).authority != old(ctx).asset.owner ==> r is Err && final(ctx).asset == old(ctx).asset,
        ({
            &&& old(ctx).authority != old(ctx).asset.owner
            &&& old(ctx).asset.is_active
            &&& amount > 0
            &&& old(ctx).asset.minted_supply + amount <= old(ctx).asset.total_supply
        }) ==> r matches Err(ErrorCode::Unauthorized),
{
    if !ctx.asset.is_active {
        return Err(ErrorCode::AssetInactive);
    }
    if amount == 0 {
        return Err(ErrorCode::InvalidAmount);
    }
    let minted = match ctx.asset.minted_supply.checked_add(amount) {
        Some(m) => m,
        None => return Err(ErrorCode::SupplyExceeded),
    };
    if minted > ctx.asset.total_supply {
        return Err(ErrorCode::SupplyExceeded);
    }
    if ctx.authority != ctx.asset.owner {
        return Err(ErrorCode::Unauthorized);
    }
    ctx.asset.minted_supply = minted;
    ctx.asset.last_mint_at = ctx.now;
    Ok(LedgerCall::MintTo { to: ctx.token_account, amount })
}

} // verus!
