//! Fractional ownership of real-world assets: asset records, supply-bounded
//! minting, purchases at a valuation-derived price, transfers and redemption.
//!
//! Each operation is a verified transition on an [`Asset`] record. Instead of
//! calling the unit ledger itself, an operation that succeeds returns the
//! ledger instructions that its caller must carry out within the same atomic
//! transaction; an operation that fails leaves every input unchanged and asks
//! for no ledger work at all.
pub mod asset;
pub mod laws;
pub mod minting;
pub mod purchase;
pub mod redemption;
pub mod registry;
pub mod transfer;

pub use asset::{Asset, AssetType, ErrorCode, Identity, LedgerCall};
pub use minting::{mint_fractional_tokens, MintFractionalTokens};
pub use purchase::{buy_fraction, BuyFraction, Purchase};
pub use redemption::{redeem, Redeem};
pub use registry::{initialize_asset, InitializeAsset};
pub use transfer::{transfer_fractional_tokens, TransferFractionalTokens};
