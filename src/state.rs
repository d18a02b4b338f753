use vstd::prelude::*;

verus! {

/// Lamports charged for one free mint (2 SOL).
pub const NFT_MINT_COST: u64 = 2_000_000_000;

/// A 32-byte account address.
#[derive(Clone, Copy, Debug)]
pub struct AccountKey {
    pub bytes: [u8; 32],
}

impl AccountKey {
    /// Whether two addresses are the same, byte for byte.
    pub fn same_as(&self, other: &AccountKey) -> (r: bool)
        ensures
            r == (self.bytes@ == other.bytes@),
    {
        let mut i: usize = 0;
        while i < 32
            invariant
                i <= 32,
                forall|j: int| 0 <= j < i ==> self.bytes@[j] == other.bytes@[j],
            decreases 32 - i,
        {
            if self.bytes[i] != other.bytes[i] {
                return false;
            }
            i = i + 1;
        }
        assert(self.bytes@ =~= other.bytes@);
        true
    }
}

/// The program-wide record: which season is running.
#[derive(Clone, Copy, Debug, PartialEq, Eq, Structural)]
pub struct GlobalAccount {
    pub season_number: u8,
    pub admin_treasury_account_bump: u8,
}

/// The sale phases of a season, in the order time moves through them.
#[derive(Clone, Copy, Debug, PartialEq, Eq, Structural)]
pub enum SeasonStep {
    NotStarted,
    WhitelistSale,
    PublicSale,
    FreelyMint,
    Closed,
}

/// The per-season collection record.
///
/// The phase is not stored: it follows from the clock and the four phase
/// boundaries, see [`CollectionAccount::get_current_step`].
#[derive(Clone, Copy, Debug, PartialEq, Eq, Structural)]
pub struct CollectionAccount {
    pub whitelist_sale_start: i64,
    pub public_sale_start: i64,
    pub freely_mint_start: i64,
    pub closed_at: i64,
    /// Units sold so far, over every sale path.
    pub sold_art_amount: u64,
    /// Total supply of the collection.
    pub art_amount: u64,
    /// Supply held back for promotions, never sold here.
    pub promos_reserved_nfts_amount: u64,
    /// How many units one user may mint during the free-mint phase.
    pub max_freely_mint_quantity: u64,
    pub bump: u8,
    pub authority_bump: u8,
}

/// The phase that holds at time `t`: each boundary opens the next phase.
pub open spec fn step_at(c: CollectionAccount, t: i64) -> SeasonStep {
    if t < c.whitelist_sale_start {
        SeasonStep::NotStarted
    } else if t < c.public_sale_start {
        SeasonStep::WhitelistSale
    } else if t < c.freely_mint_start {
        SeasonStep::PublicSale
    } else if t < c.closed_at {
        SeasonStep::FreelyMint
    } else {
        SeasonStep::Closed
    }
}

/// Units that this sale path may still hand out (negative if misconfigured).
pub open spec fn remaining_supply(c: CollectionAccount) -> int {
    c.art_amount - c.promos_reserved_nfts_amount - c.sold_art_amount
}

impl CollectionAccount {
    /// Boundaries in order, and never more sold than the sellable supply.
    pub open spec fn wf(self) -> bool {
        &&& self.whitelist_sale_start <= self.public_sale_start
        &&& self.public_sale_start <= self.freely_mint_start
        &&& self.freely_mint_start <= self.closed_at
        &&& self.promos_reserved_nfts_amount <= self.art_amount
        &&& self.sold_art_amount <= self.art_amount - self.promos_reserved_nfts_amount
    }

    /// The phase at `unix_timestamp`.
    pub fn get_current_step(&self, unix_timestamp: i64) -> (r: SeasonStep)
        ensures
            r == step_at(*self, unix_timestamp),
    {
        if unix_timestamp < self.whitelist_sale_start {
            SeasonStep::NotStarted
        } else if unix_timestamp < self.public_sale_start {
            SeasonStep::WhitelistSale
        } else if unix_timestamp < self.freely_mint_start {
            SeasonStep::PublicSale
        } else if unix_timestamp < self.closed_at {
            SeasonStep::FreelyMint
        } else {
            SeasonStep::Closed
        }
    }

    /// Whether the sellable supply still has a unit left.
    pub fn has_supply_left(&self) -> (r: bool)
        ensures
            r == (remaining_supply(*self) > 0),
    {
        self.promos_reserved_nfts_amount <= self.art_amount
            && self.sold_art_amount < self.art_amount - self.promos_reserved_nfts_amount
    }
}

/// One user's record for one season's collection.
#[derive(Clone, Copy, Debug, PartialEq, Eq, Structural)]
pub struct UserMintReserveAccount {
    /// Units this user has minted in the free-mint phase.
    pub freely_minted_amount: u64,
    pub bump: u8,
}

} // verus!
