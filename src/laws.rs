//! Properties of sequences of operations on one asset.
use vstd::prelude::*;

use crate::asset::{Asset, Identity};
use crate::minting::mint_refusal;
use crate::purchase::purchase_refusal;
use crate::redemption::redeem_refusal;

verus! {

/// One operation that changes an asset's minted supply, with what it was given.
pub enum SupplyEvent {
    /// An owner's mint, as `mint_fractional_tokens` takes it.
    Mint { requester: Identity, amount: u64, now: i64 },
    /// A redemption by a holder of `balance` units, as `redeem` takes it.
    Redeem { balance: u64, amount: u64, now: i64 },
    /// A purchase, as `buy_fraction` takes it.
    Buy { currency_amount: u64, units: u64, now: i64 },
}

/// The asset record after one event: unchanged where the operation is
/// refused, and updated as its operation's contract says where it is not.
pub open spec fn apply_event(a: Asset, e: SupplyEvent) -> Asset {
    match e {
        SupplyEvent::Mint { requester, amount, now } => {
            if mint_refusal(a, requester, amount).is_none() {
                a.after_mint(amount, now)
            } else {
                a
            }
        },
        SupplyEvent::Redeem { balance, amount, now } => {
            if redeem_refusal(a, balance, amount).is_none() {
                a.after_redeem(amount, now)
            } else {
                a
            }
        },
        SupplyEvent::Buy { currency_amount, units, now } => {
            if purchase_refusal(a, currency_amount, units).is_none() {
                a.after_mint(units, now)
            } else {
                a
            }
        },
    }
}

/// The asset record after the events, applied first to last.
pub open spec fn apply_events(a: Asset, events: Seq<SupplyEvent>) -> Asset
    decreases events.len(),
{
    if events.len() == 0 {
        a
    } else {
        apply_event(apply_events(a, events.drop_last()), events.last())
    }
}

/// Whether the event may be handed to its operation on the record `a`: a
/// redeeming holder's balance is part of the minted supply.
pub open spec fn event_admissible(a: Asset, e: SupplyEvent) -> bool {
    match e {
        SupplyEvent::Redeem { balance, .. } => balance <= a.minted_supply,
        _ => true,
    }
}

/// Whether every event may be handed to its operation, on the record as the
/// events before it left it.
pub open spec fn events_admissible(a: Asset, events: Seq<SupplyEvent>) -> bool
    decreases events.len(),
{
    if events.len() == 0 {
        true
    } else {
        events_admissible(a, events.drop_last()) && event_admissible(
            apply_events(a, events.drop_last()),
            events.last(),
        )
    }
}

/// After any sequence of mints, redemptions and purchases, the minted supply
/// stays between zero and the total supply, and the owner, the cap and the
/// valuation are those the asset was created with.
pub proof fn lemma_supply_within_cap(a: Asset, events: Seq<SupplyEvent>)
    requires
        a.wf(),
        events_admissible(a, events),
    ensures
        apply_events(a, events).wf(),
        0 <= apply_events(a, events).minted_supply <= apply_events(a, events).total_supply,
        apply_events(a, events).owner == a.owner,
        apply_events(a, events).total_supply == a.total_supply,
        apply_events(a, events).valuation == a.valuation,
    decreases events.len(),
{
    if events.len() > 0 {
        lemma_supply_within_cap(a, events.drop_last());
    }
}

/// An inactive asset is left exactly as it is by any sequence of mints,
/// redemptions and purchases: each of them is refused.
pub proof fn lemma_inactive_asset_unchanged(a: Asset, events: Seq<SupplyEvent>)
    requires
        !a.is_active,
    ensures
        apply_events(a, events) == a,
    decreases events.len(),
{
    if events.len() > 0 {
        lemma_inactive_asset_unchanged(a, events.drop_last());
    }
}

/// Minting `amount` units and then redeeming the same `amount` from the
/// holder who received them succeeds and brings the minted supply back to
/// what it was before the mint.
pub proof fn lemma_mint_then_redeem_restores(
    a: Asset,
    requester: Identity,
    amount: u64,
    minted_at: i64,
    balance: u64,
    redeemed_at: i64,
)
    requires
        a.wf(),
        mint_refusal(a, requester, amount).is_none(),
        amount <= balance <= a.after_mint(amount, minted_at).minted_supply,
    ensures
        redeem_refusal(a.after_mint(amount, minted_at), balance, amount).is_none(),
        a.after_mint(amount, minted_at).after_redeem(amount, redeemed_at).minted_supply
            == a.minted_supply,
{
}

} // verus!
