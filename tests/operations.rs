use rwa_token::purchase::{minimum_payment, unit_price};
use rwa_token::{
    buy_fraction, initialize_asset, mint_fractional_tokens, redeem, transfer_fractional_tokens,
    Asset, AssetType, BuyFraction, ErrorCode, Identity, InitializeAsset, LedgerCall,
    MintFractionalTokens, Purchase, Redeem, TransferFractionalTokens,
};

fn key(b: u8) -> Identity {
    Identity([b; 32])
}

fn asset(minted_supply: u64, total_supply: u64, valuation: u64) -> Asset {
    Asset {
        owner: key(1),
        name: "Harbour warehouse".to_string(),
        description: "A warehouse by the harbour".to_string(),
        valuation,
        asset_type: AssetType::RealEstate,
        metadata_uri: "https://example.org/warehouse.json".to_string(),
        total_supply,
        minted_supply,
        created_at: 100,
        last_mint_at: 0,
        last_redeem_at: 0,
        is_active: true,
    }
}

fn mint_ctx(a: Asset, authority: Identity) -> MintFractionalTokens {
    MintFractionalTokens { asset: a, authority, token_account: key(7), now: 200 }
}

fn buy_ctx(a: Asset) -> BuyFraction {
    BuyFraction {
        asset: a,
        buyer: key(2),
        buyer_usdc_account: key(3),
        buyer_token_account: key(4),
        owner_usdc_account: key(5),
        now: 300,
    }
}

fn redeem_ctx(a: Asset, balance: u64) -> Redeem {
    Redeem { asset: a, user: key(2), user_token_account: key(4), user_token_balance: balance, now: 400 }
}

fn create(name: &str, description: &str, valuation: u64, uri: &str, total: u64) -> Result<Asset, ErrorCode> {
    let ctx = InitializeAsset { owner: key(1), now: 50 };
    initialize_asset(
        &ctx,
        name.to_string(),
        description.to_string(),
        valuation,
        AssetType::Land,
        uri.to_string(),
        total,
    )
}

#[test]
fn create_asset_sets_fields() {
    let a = create("Plot 9", "A field", 5000, "ipfs://plot9", 100).unwrap();
    assert_eq!(a.owner, key(1));
    assert_eq!(a.name, "Plot 9");
    assert_eq!(a.description, "A field");
    assert_eq!(a.valuation, 5000);
    assert_eq!(a.asset_type, AssetType::Land);
    assert_eq!(a.metadata_uri, "ipfs://plot9");
    assert_eq!(a.total_supply, 100);
    assert_eq!(a.minted_supply, 0);
    assert_eq!(a.created_at, 50);
    assert_eq!(a.last_mint_at, 0);
    assert_eq!(a.last_redeem_at, 0);
    assert!(a.is_active);
}

#[test]
fn create_name_of_51_chars_fails_50_succeeds() {
    let long = "n".repeat(51);
    assert_eq!(create(&long, "", 1, "", 1), Err(ErrorCode::NameTooLong));
    let ok = "n".repeat(50);
    assert_eq!(create(&ok, "", 1, "", 1).unwrap().name, ok);
}

#[test]
fn create_counts_characters_not_bytes() {
    let name = "\u{e9}".repeat(50);
    assert!(create(&name, "", 1, "", 1).is_ok());
    let name = "\u{e9}".repeat(51);
    assert_eq!(create(&name, "", 1, "", 1), Err(ErrorCode::NameTooLong));
}

#[test]
fn create_rejects_each_field() {
    assert!(create("a", &"d".repeat(500), 1, &"u".repeat(200), 1).is_ok());
    assert_eq!(create("a", &"d".repeat(501), 1, "", 1), Err(ErrorCode::DescriptionTooLong));
    assert_eq!(create("a", "", 1, &"u".repeat(201), 1), Err(ErrorCode::MetadataUriTooLong));
    assert_eq!(create("a", "", 1, "", 0), Err(ErrorCode::InvalidSupply));
    assert_eq!(create("a", "", 0, "", 1), Err(ErrorCode::InvalidValuation));
}

#[test]
fn create_reports_first_failing_field() {
    assert_eq!(create(&"n".repeat(51), &"d".repeat(501), 0, "", 0), Err(ErrorCode::NameTooLong));
    assert_eq!(create("a", "", 0, "", 0), Err(ErrorCode::InvalidSupply));
}

#[test]
fn mint_past_cap_fails_and_up_to_cap_succeeds() {
    let mut ctx = mint_ctx(asset(900, 1000, 1_000_000), key(1));
    assert_eq!(mint_fractional_tokens(&mut ctx, 101), Err(ErrorCode::SupplyExceeded));
    assert_eq!(ctx.asset.minted_supply, 900);
    assert_eq!(mint_fractional_tokens(&mut ctx, 100), Ok(LedgerCall::MintTo { to: key(7), amount: 100 }));
    assert_eq!(ctx.asset.minted_supply, 1000);
    assert_eq!(ctx.asset.last_mint_at, 200);
}

#[test]
fn mint_overflowing_sum_is_supply_exceeded() {
    let mut ctx = mint_ctx(asset(5, u64::MAX, 1), key(1));
    assert_eq!(mint_fractional_tokens(&mut ctx, u64::MAX), Err(ErrorCode::SupplyExceeded));
    assert_eq!(ctx.asset, asset(5, u64::MAX, 1));
}

#[test]
fn mint_by_stranger_is_unauthorized_and_changes_nothing() {
    let mut ctx = mint_ctx(asset(0, 1000, 1_000_000), key(9));
    assert_eq!(mint_fractional_tokens(&mut ctx, 10), Err(ErrorCode::Unauthorized));
    assert_eq!(ctx.asset, asset(0, 1000, 1_000_000));
}

#[test]
fn mint_zero_and_inactive_are_refused() {
    let mut ctx = mint_ctx(asset(0, 1000, 1_000_000), key(1));
    assert_eq!(mint_fractional_tokens(&mut ctx, 0), Err(ErrorCode::InvalidAmount));
    ctx.asset.is_active = false;
    assert_eq!(mint_fractional_tokens(&mut ctx, 5), Err(ErrorCode::AssetInactive));
    assert_eq!(ctx.asset.minted_supply, 0);
}

#[test]
fn transfer_forwards_nonzero_amount() {
    let ctx = TransferFractionalTokens { from_token_account: key(3), to_token_account: key(4), from_authority: key(2) };
    assert_eq!(
        transfer_fractional_tokens(&ctx, 25),
        Ok(LedgerCall::Transfer { from: key(3), to: key(4), authority: key(2), amount: 25 })
    );
    assert_eq!(transfer_fractional_tokens(&ctx, 0), Err(ErrorCode::InvalidAmount));
}

#[test]
fn unit_price_rounds_down() {
    assert_eq!(unit_price(&asset(0, 1000, 1_000_000)), 1000);
    assert_eq!(unit_price(&asset(0, 3, 1000)), 333);
    assert_eq!(unit_price(&asset(0, 1000, 999)), 0);
}

#[test]
fn minimum_payment_is_ninety_nine_percent_rounded_down() {
    assert_eq!(minimum_payment(10, 1000), 9900);
    assert_eq!(minimum_payment(1, 333), 329);
    assert_eq!(minimum_payment(0, 333), 0);
    let max = u64::MAX as u128;
    let nominal = max * max;
    assert_eq!(minimum_payment(u64::MAX, u64::MAX), nominal / 100 * 99 + nominal % 100 * 99 / 100);
}

#[test]
fn buy_at_ninety_nine_percent_succeeds() {
    let mut ctx = buy_ctx(asset(0, 1000, 1_000_000));
    let r = buy_fraction(&mut ctx, 9900, 10);
    assert_eq!(
        r,
        Ok(Purchase {
            payment: LedgerCall::Transfer { from: key(3), to: key(5), authority: key(2), amount: 9900 },
            issue: LedgerCall::MintTo { to: key(4), amount: 10 },
        })
    );
    assert_eq!(ctx.asset.minted_supply, 10);
    assert_eq!(ctx.asset.last_mint_at, 300);
}

#[test]
fn buy_below_ninety_nine_percent_fails() {
    let mut ctx = buy_ctx(asset(0, 1000, 1_000_000));
    assert_eq!(buy_fraction(&mut ctx, 9899, 10), Err(ErrorCode::SlippageExceeded));
    assert_eq!(ctx.asset, asset(0, 1000, 1_000_000));
}

#[test]
fn buy_may_overpay() {
    let mut ctx = buy_ctx(asset(0, 1000, 1_000_000));
    assert!(buy_fraction(&mut ctx, 50_000, 10).is_ok());
}

#[test]
fn buy_huge_order_is_slippage_not_overflow() {
    let mut ctx = buy_ctx(asset(0, 1, u64::MAX));
    assert_eq!(buy_fraction(&mut ctx, u64::MAX, 2), Err(ErrorCode::SlippageExceeded));
    assert_eq!(ctx.asset.minted_supply, 0);
}

#[test]
fn buy_refusals() {
    let mut ctx = buy_ctx(asset(995, 1000, 1_000_000));
    assert_eq!(buy_fraction(&mut ctx, 0, 10), Err(ErrorCode::InvalidAmount));
    assert_eq!(buy_fraction(&mut ctx, 10_000, 0), Err(ErrorCode::InvalidAmount));
    assert_eq!(buy_fraction(&mut ctx, 10_000, 10), Err(ErrorCode::SupplyExceeded));
    ctx.asset.is_active = false;
    assert_eq!(buy_fraction(&mut ctx, 10_000, 1), Err(ErrorCode::AssetInactive));
    assert_eq!(ctx.asset.minted_supply, 995);
}

#[test]
fn redeem_more_than_balance_fails() {
    let mut ctx = redeem_ctx(asset(500, 1000, 1_000_000), 40);
    assert_eq!(redeem(&mut ctx, 41), Err(ErrorCode::InsufficientTokens));
    assert_eq!(ctx.asset.minted_supply, 500);
}

#[test]
fn redeem_burns_and_lowers_supply() {
    let mut ctx = redeem_ctx(asset(500, 1000, 1_000_000), 40);
    assert_eq!(redeem(&mut ctx, 40), Ok(LedgerCall::Burn { from: key(4), amount: 40 }));
    assert_eq!(ctx.asset.minted_supply, 460);
    assert_eq!(ctx.asset.last_redeem_at, 400);
}

#[test]
fn redeem_zero_and_inactive_are_refused() {
    let mut ctx = redeem_ctx(asset(500, 1000, 1_000_000), 40);
    assert_eq!(redeem(&mut ctx, 0), Err(ErrorCode::InvalidAmount));
    ctx.asset.is_active = false;
    assert_eq!(redeem(&mut ctx, 1), Err(ErrorCode::AssetInactive));
}

#[test]
fn mint_then_redeem_restores_supply() {
    let mut m = mint_ctx(asset(300, 1000, 1_000_000), key(1));
    assert!(mint_fractional_tokens(&mut m, 250).is_ok());
    assert_eq!(m.asset.minted_supply, 550);
    let mut r = redeem_ctx(m.asset, 250);
    assert!(redeem(&mut r, 250).is_ok());
    assert_eq!(r.asset.minted_supply, 300);
}

#[test]
fn supply_stays_within_cap_over_a_sequence() {
    let mut a = asset(0, 100, 10_000);
    let amounts: [u64; 6] = [60, 50, 40, 30, 90, 10];
    let mut held: u64 = 0;
    for (i, amount) in amounts.iter().enumerate() {
        if i % 2 == 0 {
            let mut ctx = mint_ctx(a, key(1));
            if mint_fractional_tokens(&mut ctx, *amount).is_ok() {
                held += *amount;
            }
            a = ctx.asset;
        } else {
            let mut ctx = redeem_ctx(a, held);
            if redeem(&mut ctx, *amount).is_ok() {
                held -= *amount;
            }
            a = ctx.asset;
        }
        assert!(a.minted_supply <= a.total_supply);
        assert_eq!(a.minted_supply, held);
    }
    assert_eq!(a.owner, key(1));
}

#[test]
fn well_formed_records() {
    assert!(asset(10, 100, 5).is_well_formed());
    assert!(asset(100, 100, 5).is_well_formed());
    assert!(!asset(101, 100, 5).is_well_formed());
    assert!(!asset(0, 0, 5).is_well_formed());
    assert!(!asset(0, 100, 0).is_well_formed());
    let mut a = asset(0, 100, 5);
    a.name = "n".repeat(51);
    assert!(!a.is_well_formed());
    a.name = "\u{e9}".repeat(50);
    assert!(a.is_well_formed());
}

#[test]
fn identities_compare_by_bytes() {
    let mut other = [1u8; 32];
    assert_eq!(Identity(other), key(1));
    other[31] = 2;
    assert_ne!(Identity(other), key(1));
    assert!(key(3).same_as(&key(3)));
    assert!(!key(3).same_as(&key(4)));
}
