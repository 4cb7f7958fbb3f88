//! Buying units of an asset with the settlement currency, at a price derived
//! from the asset's valuation.
//!
//! A purchase issues new units, so it goes through the same supply cap and
//! the same `minted_supply` bookkeeping as an owner's mint: units bought are
//! units minted, and the supply counter keeps mirroring the ledger.
use vstd::prelude::*;

use crate::asset::{Asset, ErrorCode, Identity, LedgerCall};
use crate::laws::{apply_event, SupplyEvent};

verus! {

/// The accounts and the moment of a purchase.
pub struct BuyFraction {
    pub asset: Asset,
    /// Signer who pays and receives the units.
    pub buyer: Identity,
    /// Settlement-currency account that pays.
    pub buyer_usdc_account: Identity,
    /// Unit account that receives the units.
    pub buyer_token_account: Identity,
    /// Settlement-currency account of the asset's owner, paid into.
    pub owner_usdc_account: Identity,
    /// Time of the operation, in seconds since the epoch.
    pub now: i64,
}

/// The two ledger legs of a purchase, to be applied together or not at all.
#[derive(Clone, Copy, Debug, PartialEq, Eq)]
pub struct Purchase {
    /// The buyer's payment to the owner.
    pub payment: LedgerCall,
    /// The units issued to the buyer.
    pub issue: LedgerCall,
}

/// Least payment accepted for `units` units at `price` each: 99% of the
/// nominal amount, rounded down.
pub open spec fn min_payment(units: nat, price: nat) -> nat {
    (units * price * 99) / 100
}

/// Why a purchase of `units` units for `currency_amount` is refused, if it is.
pub open spec fn purchase_refusal(a: Asset, currency_amount: u64, units: u64) -> Option<ErrorCode> {
    if !a.is_active {
        Some(ErrorCode::AssetInactive)
    } else if currency_amount == 0 || units == 0 {
        Some(ErrorCode::InvalidAmount)
    } else if currency_amount < min_payment(units as nat, a.unit_price()) {
        Some(ErrorCode::SlippageExceeded)
    } else if a.minted_supply + units > a.total_supply {
        Some(ErrorCode::SupplyExceeded)
    } else {
        None
    }
}

/// Computes the price of one unit of `asset`.
pub fn unit_price(asset: &Asset) -> (r: u64)
    requires
        asset.total_supply > 0,
    ensures
        r == asset.unit_price(),
{
    asset.valuation / asset.total_supply
}

/// Computes the least payment accepted for `units` units at `price` each.
pub fn minimum_payment(units: u64, price: u64) -> (r: u128)
    ensures
        r == min_payment(units as nat, price as nat),
{
    proof {
        assert((units as int) * (price as int) <= 0xffff_ffff_ffff_ffffu64 as int * 0xffff_ffff_ffff_ffffu64 as int) by (nonlinear_arith)
            requires
                units <= 0xffff_ffff_ffff_ffffu64,
                price <= 0xffff_ffff_ffff_ffffu64,
        ;
    }
    let nominal: u128 = (units as u128) * (price as u128);
    let q: u128 = nominal / 100;
    let rem: u128 = nominal % 100;
    proof {
        let n = nominal as int;
        assert(n == 100 * q + rem);
        assert(n * 99 == 100 * (99 * q + (99 * rem) / 100) + (99 * rem) % 100) by (nonlinear_arith)
            requires
                n == 100 * q + rem,
                0 <= rem < 100,
        ;
        vstd::arithmetic::div_mod::lemma_fundamental_div_mod_converse(
            n * 99,
            100,
            99 * q + (99 * rem) / 100,
            (99 * rem) % 100,
        );
        assert(99 * q <= n) by (nonlinear_arith)
            requires
                n == 100 * q + rem,
                0 <= rem,
        ;
    }
    99 * q + (99 * rem) / 100
}

/// Sells `expected_tokens` units of the asset to the buyer for `usdc_amount`
/// of the settlement currency.
///
/// The purchase is refused when the asset is inactive, when either amount is
/// zero, when the payment is under 99% of the nominal price of the units, or
/// when the units would take the minted supply past the cap. Otherwise the
/// units count as minted, and the caller must apply both returned legs: the
/// payment to the owner, then the issue of units to the buyer.
pub fn buy_fraction(ctx: &mut BuyFraction, usdc_amount: u64, expected_tokens: u64) -> (r: Result<Purchase, ErrorCode>)
    requires
        old(ctx).asset.wf(),
    ensures
        final(ctx).asset.wf(),
        final(ctx).buyer == old(ctx).buyer,
        final(ctx).buyer_usdc_account == old(ctx).buyer_usdc_account,
        final(ctx).buyer_token_account == old(ctx).buyer_token_account,
        final(ctx).owner_usdc_account == old(ctx).owner_usdc_account,
        final(ctx).now == old(ctx).now,
        final(ctx).asset == apply_event(
            old(ctx).asset,
            SupplyEvent::Buy { currency_amount: usdc_amount, units: expected_tokens, now: old(ctx).now },
        ),
        match r {
            Ok(p) => {
                &&& purchase_refusal(old(ctx).asset, usdc_amount, expected_tokens).is_none()
                &&& p.payment == (LedgerCall::Transfer {
                    from: old(ctx).buyer_usdc_account,
                    to: old(ctx).owner_usdc_account,
                    authority: old(ctx).buyer,
                    amount: usdc_amount,
                })
                &&& p.issue == (LedgerCall::MintTo {
                    to: old(ctx).buyer_token_account,
                    amount: expected_tokens,
                })
                &&& final(ctx).asset == old(ctx).asset.after_mint(expected_tokens, old(ctx).now)
            },
            Err(e) => {
                &&& purchase_refusal(old(ctx).asset, usdc_amount, expected_tokens) == Some(e)
                &&& final(ctx).asset == old(ctx).asset
            },
        },
        ({
            &&& old(ctx).asset.is_active
            &&& usdc_amount > 0
            &&& expected_tokens > 0
            &&& usdc_amount < min_payment(expected_tokens as nat, old(ctx).asset.unit_price())
        }) ==> (r matches Err(ErrorCode::SlippageExceeded)) && final(ctx).asset == old(ctx).asset,
{
    if !ctx.asset.is_active {
        return Err(ErrorCode::AssetInactive);
    }
    if usdc_amount == 0 || expected_tokens == 0 {
        return Err(ErrorCode::InvalidAmount);
    }
    let price = unit_price(&ctx.asset);
    if (usdc_amount as u128) < minimum_payment(expected_tokens, price) {
        return Err(ErrorCode::SlippageExceeded);
    }
    if expected_tokens > ctx.asset.total_supply - ctx.asset.minted_supply {
        return Err(ErrorCode::SupplyExceeded);
    }
    ctx.asset.minted_supply = ctx.asset.minted_supply + expected_tokens;
    ctx.asset.last_mint_at = ctx.now;
    Ok(Purchase {
        payment: LedgerCall::Transfer {
            from: ctx.buyer_usdc_account,
            to: ctx.owner_usdc_account,
            authority: ctx.buyer,
            amount: usdc_amount,
        },
        issue: LedgerCall::MintTo { to: ctx.buyer_token_account, amount: expected_tokens },
    })
}

} // verus!
