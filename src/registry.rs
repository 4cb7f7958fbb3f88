//! Registration of new assets.
use vstd::prelude::*;

use crate::asset::{
    Asset,
    AssetType,
    ErrorCode,
    Identity,
    MAX_DESCRIPTION_LEN,
    MAX_METADATA_URI_LEN,
    MAX_NAME_LEN,
};

verus! {

/// The issuer and the moment of an asset's registration.
pub struct InitializeAsset {
    /// Signer who registers the asset and becomes its owner for good.
    pub owner: Identity,
    /// Time of the operation, in seconds since the epoch.
    pub now: i64,
}

/// Why an asset with these fields cannot be registered, if it cannot. The
/// fields are checked in this order, so the first that fails names the error.
pub open spec fn creation_refusal(
    name: Seq<char>,
    description: Seq<char>,
    valuation: u64,
    metadata_uri: Seq<char>,
    total_supply: u64,
) -> Option<ErrorCode> {
    if name.len() > MAX_NAME_LEN {
        Some(ErrorCode::NameTooLong)
    } else if description.len() > MAX_DESCRIPTION_LEN {
        Some(ErrorCode::DescriptionTooLong)
    } else if metadata_uri.len() > MAX_METADATA_URI_LEN {
        Some(ErrorCode::MetadataUriTooLong)
    } else if total_supply == 0 {
        Some(ErrorCode::InvalidSupply)
    } else if valuation == 0 {
        Some(ErrorCode::InvalidValuation)
    } else {
        None
    }
}

/// Registers a new asset owned by the signer, with nothing minted yet.
///
/// Refused when the name is over 50 characters, the description over 500,
/// the metadata URI over 200, or when the total supply or the valuation is
/// zero. The new record is active, and its creation time is the time of the
/// operation; it has seen no mint and no redemption yet, so those times are 0.
pub fn initialize_asset(
    ctx: &InitializeAsset,
    name: String,
    description: String,
    valuation: u64,
    asset_type: AssetType,
    metadata_uri: String,
    total_supply: u64,
) -> (r: Result<Asset, ErrorCode>)
    ensures
        match r {
            Ok(a) => {
                &&& creation_refusal(name@, description@, valuation, metadata_uri@, total_supply).is_none()
                &&& a.wf()
                &&& a.owner == ctx.owner
                &&& a.name@ == name@
                &&& a.description@ == description@
                &&& a.valuation == valuation
                &&& a.asset_type == asset_type
                &&& a.metadata_uri@ == metadata_uri@
                &&& a.total_supply == total_supply
                &&& a.minted_supply == 0
                &&& a.created_at == ctx.now
                &&& a.last_mint_at == 0
                &&& a.last_redeem_at == 0
                &&& a.is_active
            },
            Err(e) => creation_refusal(name@, description@, valuation, metadata_uri@, total_supply)
                == Some(e),
        },
{
    if name.as_str().unicode_len() > MAX_NAME_LEN {
        return Err(ErrorCode::NameTooLong);
    }
    if description.as_str().unicode_len() > MAX_DESCRIPTION_LEN {
        return Err(ErrorCode::DescriptionTooLong);
    }
    if metadata_uri.as_str().unicode_len() > MAX_METADATA_URI_LEN {
        return Err(ErrorCode::MetadataUriTooLong);
    }
    if total_supply == 0 {
        return Err(ErrorCode::InvalidSupply);
    }
    if valuation == 0 {
        return Err(ErrorCode::InvalidValuation);
    }
    Ok(Asset {
        owner: ctx.owner,
        name,
        description,
        valuation,
        asset_type,
        metadata_uri,
        total_supply,
        minted_supply: 0,
        created_at: ctx.now,
        last_mint_at: 0,
        last_redeem_at: 0,
        is_active: true,
    })
}

} // verus!
