//! A gated free-mint claim for a seasonal art collection: phase gating,
//! supply and per-user quotas, escrowed payment, and the counter updates that
//! commit a claim, stated over plain values and proved with Verus.
//!
//! The ledger work (moving lamports, moving the token, emitting the event) is
//! left to the host: a [`ClaimSession`] tells it what to do next and is told
//! how each transfer went. [`FreelyMintNftOne::process`] runs a whole claim
//! against given transfer outcomes, and [`laws`] states what holds of claims.

mod error;
mod freely_mint_nft_one;
pub mod laws;
mod state;

pub use error::ErrorCode;
pub use freely_mint_nft_one::{
    can_commit, claim_check, claim_outcome, committed, mint_event, Action, ClaimSession,
    ClaimStage, FreelyMintNftOne, FreelyMintNftOneArgs, SeasonMintEvent,
};
pub use state::{
    remaining_supply, step_at, AccountKey, CollectionAccount, GlobalAccount, SeasonStep,
    UserMintReserveAccount, NFT_MINT_COST,
};
