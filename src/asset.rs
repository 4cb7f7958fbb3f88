//! The asset record, the identities that own and hold it, and the errors
//! that the operations report.
use vstd::prelude::*;

verus! {

/// A 32-byte public identity: an asset's owner, a signer, or a ledger account.
#[derive(Clone, Copy, Debug)]
pub struct Identity(pub [u8; 32]);

impl Identity {
    /// Whether two identities hold the same bytes.
    pub fn same_as(&self, other: &Identity) -> (r: bool)
        ensures
            r == (*self == *other),
    {
        let mut i: usize = 0;
        while i < 32
            invariant
                0 <= i <= 32,
                forall|j: int| 0 <= j < i ==> self.0[j] == other.0[j],
            decreases 32 - i,
        {
            if self.0[i] != other.0[i] {
                return false;
            }
            i = i + 1;
        }
        proof {
            assert(self.0 =~= other.0);
        }
        true
    }
}

impl PartialEq for Identity {
    fn eq(&self, other: &Identity) -> (r: bool) {
        self.same_as(other)
    }
}

impl vstd::std_specs::cmp::PartialEqSpecImpl for Identity {
    open spec fn obeys_eq_spec() -> bool {
        true
    }

    open spec fn eq_spec(&self, other: &Identity) -> bool {
        *self == *other
    }
}

impl Eq for Identity {}

/// The kind of real-world item that an asset stands for.
#[derive(Clone, Copy, Debug, PartialEq, Eq, Structural)]
pub enum AssetType {
    Land,
    Art,
    Carbon,
    RealEstate,
    Commodity,
    Other,
}

/// Why an operation was refused.
#[derive(Clone, Copy, Debug, PartialEq, Eq, Structural)]
pub enum ErrorCode {
    NameTooLong,
    DescriptionTooLong,
    MetadataUriTooLong,
    InvalidSupply,
    InvalidValuation,
    AssetInactive,
    InvalidAmount,
    SupplyExceeded,
    Unauthorized,
    SlippageExceeded,
    InsufficientTokens,
}

/// The record of one issued real-world asset.
///
/// `minted_supply` counts the units minted for the asset less those burned,
/// and never exceeds the fixed cap `total_supply`. The owner never changes
/// once the asset exists.
#[derive(Clone, Debug, PartialEq, Eq)]
pub struct Asset {
    pub owner: Identity,
    pub name: String,
    pub description: String,
    /// Worth of the whole asset, in the smallest unit of the settlement currency.
    pub valuation: u64,
    pub asset_type: AssetType,
    pub metadata_uri: String,
    pub total_supply: u64,
    pub minted_supply: u64,
    pub created_at: i64,
    pub last_mint_at: i64,
    pub last_redeem_at: i64,
    pub is_active: bool,
}

/// Longest accepted asset name, in characters.
pub const MAX_NAME_LEN: usize = 50;

/// Longest accepted asset description, in characters.
pub const MAX_DESCRIPTION_LEN: usize = 500;

/// Longest accepted metadata URI, in characters.
pub const MAX_METADATA_URI_LEN: usize = 200;

impl Asset {
    /// What every asset record satisfies from its creation on.
    pub open spec fn wf(&self) -> bool {
        &&& self.minted_supply <= self.total_supply
        &&& self.total_supply > 0
        &&& self.valuation > 0
        &&& self.name@.len() <= MAX_NAME_LEN
        &&& self.description@.len() <= MAX_DESCRIPTION_LEN
        &&& self.metadata_uri@.len() <= MAX_METADATA_URI_LEN
    }

    /// Tells whether the record satisfies `wf`, as a record read back from
    /// storage must before any operation is run on it.
    pub fn is_well_formed(&self) -> (r: bool)
        ensures
            r == self.wf(),
    {
        self.minted_supply <= self.total_supply && self.total_supply > 0 && self.valuation > 0
            && self.name.as_str().unicode_len() <= MAX_NAME_LEN
            && self.description.as_str().unicode_len() <= MAX_DESCRIPTION_LEN
            && self.metadata_uri.as_str().unicode_len() <= MAX_METADATA_URI_LEN
    }

    /// Price of one unit: the valuation spread over the whole supply,
    /// rounded down.
    pub open spec fn unit_price(&self) -> nat {
        self.valuation as nat / self.total_supply as nat
    }

    /// The record after `amount` more units were issued at time `now`.
    pub open spec fn after_mint(&self, amount: u64, now: i64) -> Asset {
        Asset {
            minted_supply: (self.minted_supply + amount) as u64,
            last_mint_at: now,
            ..*self
        }
    }

    /// The record after `amount` units were burned at time `now`.
    pub open spec fn after_redeem(&self, amount: u64, now: i64) -> Asset {
        Asset {
            minted_supply: (self.minted_supply - amount) as u64,
            last_redeem_at: now,
            ..*self
        }
    }
}

/// A ledger instruction that a successful operation asks its caller to carry
/// out. Mints and burns are authorised by the asset's own derived authority,
/// never by a person's key.
#[derive(Clone, Copy, Debug, PartialEq, Eq)]
pub enum LedgerCall {
    /// Issue `amount` new units into the unit account `to`.
    MintTo { to: Identity, amount: u64 },
    /// Destroy `amount` units held in the unit account `from`.
    Burn { from: Identity, amount: u64 },
    /// Move `amount` from account `from` to account `to`, signed by `authority`.
    Transfer { from: Identity, to: Identity, authority: Identity, amount: u64 },
}

} // verus!
