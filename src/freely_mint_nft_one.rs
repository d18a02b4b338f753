use vstd::prelude::*;
use crate::error::ErrorCode;
use crate::state::{
    remaining_supply, step_at, AccountKey, CollectionAccount, GlobalAccount, SeasonStep,
    UserMintReserveAccount, NFT_MINT_COST,
};

verus! {

/// The caller's payload of a free-mint claim.
pub struct FreelyMintNftOneArgs {
    pub season_number: u8,
    /// Not read on the free-mint path.
    pub whitelist_proof: Vec<[u8; 32]>,
    /// Lamports offered; must be exactly [`NFT_MINT_COST`].
    pub cost: u64,
    pub user_mint_reserve_bump: u8,
}

/// The record emitted when a claim commits.
#[derive(Clone, Copy, Debug, PartialEq, Eq, Structural)]
pub struct SeasonMintEvent {
    pub season_number: u8,
    pub sold_art_amount: u64,
}

/// What the accounts of one claim hold when the transaction starts.
#[derive(Clone, Copy, Debug)]
pub struct FreelyMintNftOne {
    /// Address of the global state account that was passed in.
    pub global_state_key: AccountKey,
    pub global_state: GlobalAccount,
    pub collection_state: CollectionAccount,
    pub user_mint_reserve_state: UserMintReserveAccount,
    /// Whether the claimant signed the transaction.
    pub user_is_signer: bool,
    /// The claimant's balance.
    pub user_lamports: u64,
    /// The clock's time.
    pub unix_timestamp: i64,
}

/// The checks of a claim, in order; the first that fails decides the error.
pub open spec fn claim_check(
    s: FreelyMintNftOne,
    season_number: u8,
    cost: u64,
    kanon_state_key: AccountKey,
) -> Result<(), ErrorCode> {
    if s.global_state_key.bytes@ != kanon_state_key.bytes@ {
        Err(ErrorCode::InvalidGlobalAccount)
    } else if season_number != s.global_state.season_number {
        Err(ErrorCode::WrongSeasonNumber)
    } else if step_at(s.collection_state, s.unix_timestamp) != SeasonStep::FreelyMint {
        Err(ErrorCode::ConditionMismatch)
    } else if remaining_supply(s.collection_state) <= 0 {
        Err(ErrorCode::ConditionMismatch)
    } else if cost != NFT_MINT_COST {
        Err(ErrorCode::ConditionMismatch)
    } else if s.user_mint_reserve_state.freely_minted_amount
        >= s.collection_state.max_freely_mint_quantity {
        Err(ErrorCode::OutOfUserMaxQuantity)
    } else if !s.user_is_signer {
        Err(ErrorCode::MissingRequiredSignature)
    } else if s.user_lamports < cost {
        Err(ErrorCode::NotEnoughBalanceInUserWallet)
    } else {
        Ok(())
    }
}

/// Whether the counters and the balance leave room to commit a claim of `cost`.
pub open spec fn can_commit(s: FreelyMintNftOne, cost: u64) -> bool {
    &&& remaining_supply(s.collection_state) > 0
    &&& s.user_mint_reserve_state.freely_minted_amount
        < s.collection_state.max_freely_mint_quantity
    &&& cost <= s.user_lamports
}

/// The accounts after a committed claim: `cost` paid, one more unit sold to
/// the user.
pub open spec fn committed(s: FreelyMintNftOne, cost: u64) -> FreelyMintNftOne {
    FreelyMintNftOne {
        user_lamports: (s.user_lamports - cost) as u64,
        collection_state: CollectionAccount {
            sold_art_amount: (s.collection_state.sold_art_amount + 1) as u64,
            ..s.collection_state
        },
        user_mint_reserve_state: UserMintReserveAccount {
            freely_minted_amount: (s.user_mint_reserve_state.freely_minted_amount + 1) as u64,
            ..s.user_mint_reserve_state
        },
        ..s
    }
}

/// The event that a commit of `s` emits, `s` being the accounts after it.
pub open spec fn mint_event(s: FreelyMintNftOne) -> SeasonMintEvent {
    SeasonMintEvent {
        season_number: s.global_state.season_number,
        sold_art_amount: s.collection_state.sold_art_amount,
    }
}

/// A whole claim: the accounts afterwards and the result, given how the
/// host's two transfers went. Any failure leaves every account as it was.
pub open spec fn claim_outcome(
    s: FreelyMintNftOne,
    season_number: u8,
    cost: u64,
    kanon_state_key: AccountKey,
    escrow_ok: bool,
    transfer_ok: bool,
) -> (FreelyMintNftOne, Result<SeasonMintEvent, ErrorCode>) {
    match claim_check(s, season_number, cost, kanon_state_key) {
        Err(e) => (s, Err(e)),
        Ok(()) => if !escrow_ok {
            (s, Err(ErrorCode::EscrowFailed))
        } else if !transfer_ok {
            (s, Err(ErrorCode::AssetTransferFailed))
        } else {
            (committed(s, cost), Ok(mint_event(committed(s, cost))))
        },
    }
}

/// What the host is asked to do next.
#[derive(Clone, Copy, Debug, PartialEq, Eq, Structural)]
pub enum Action {
    /// Move `cost` lamports from the claimant to the admin treasury.
    EscrowFunds { cost: u64 },
    /// Move `amount` tokens from the collection's custody to the claimant,
    /// signed by the collection authority derived with `authority_bump`.
    TransferNft { amount: u64, authority_bump: u8 },
    /// Persist the accounts of the session and emit `event`.
    Emit { event: SeasonMintEvent },
    /// Fail the transaction with `error`; the host keeps none of its effects.
    Abort { error: ErrorCode },
}

/// Where a claim stands.
#[derive(Clone, Copy, Debug, PartialEq, Eq, Structural)]
pub enum ClaimStage {
    AwaitingEscrow,
    AwaitingNftTransfer,
    Committed,
    Aborted,
}

/// One claim in progress. `accounts` changes only when the claim commits.
#[derive(Clone, Copy, Debug)]
pub struct ClaimSession {
    pub accounts: FreelyMintNftOne,
    pub stage: ClaimStage,
    /// The lamports that the claim charges.
    pub cost: u64,
}

impl ClaimSession {
    /// While a transfer is awaited, the checks have passed and the commit fits.
    pub open spec fn wf(self) -> bool {
        (self.stage == ClaimStage::AwaitingEscrow || self.stage == ClaimStage::AwaitingNftTransfer)
            ==> can_commit(self.accounts, self.cost)
    }

    /// Opens a claim: validates it and, if it passes, asks for the escrow.
    pub fn begin(
        accounts: FreelyMintNftOne,
        args: &FreelyMintNftOneArgs,
        kanon_state_key: &AccountKey,
    ) -> (r: (ClaimSession, Action))
        ensures
            r.0.wf(),
            r.0.accounts == accounts,
            r.0.cost == args.cost,
            match claim_check(accounts, args.season_number, args.cost, *kanon_state_key) {
                Err(e) => r.0.stage == ClaimStage::Aborted && r.1 == (Action::Abort { error: e }),
                Ok(()) => r.0.stage == ClaimStage::AwaitingEscrow && r.1 == (Action::EscrowFunds {
                    cost: args.cost,
                }),
            },
    {
        match accounts.validate(args, kanon_state_key) {
            Err(e) => (
                ClaimSession { accounts, stage: ClaimStage::Aborted, cost: args.cost },
                Action::Abort { error: e },
            ),
            Ok(()) => (
                ClaimSession { accounts, stage: ClaimStage::AwaitingEscrow, cost: args.cost },
                Action::EscrowFunds { cost: args.cost },
            ),
        }
    }

    /// Takes the outcome of the escrow: on success asks for exactly one
    /// token to move, else aborts.
    pub fn escrow_finished(&mut self, succeeded: bool) -> (r: Action)
        requires
            old(self).wf(),
            old(self).stage == ClaimStage::AwaitingEscrow,
        ensures
            final(self).wf(),
            final(self).accounts == old(self).accounts,
            final(self).cost == old(self).cost,
            succeeded ==> final(self).stage == ClaimStage::AwaitingNftTransfer && r == (
            Action::TransferNft {
                amount: 1,
                authority_bump: old(self).accounts.collection_state.authority_bump,
            }),
            !succeeded ==> final(self).stage == ClaimStage::Aborted && r == (Action::Abort {
                error: ErrorCode::EscrowFailed,
            }),
    {
        if succeeded {
            self.stage = ClaimStage::AwaitingNftTransfer;
            Action::TransferNft {
                amount: 1,
                authority_bump: self.accounts.collection_state.authority_bump,
            }
        } else {
            self.stage = ClaimStage::Aborted;
            Action::Abort { error: ErrorCode::EscrowFailed }
        }
    }

    /// Takes the outcome of the token transfer: on success charges the
    /// claim, advances both counters and asks for the event; else aborts
    /// with the accounts untouched.
    pub fn nft_transfer_finished(&mut self, succeeded: bool) -> (r: Action)
        requires
            old(self).wf(),
            old(self).stage == ClaimStage::AwaitingNftTransfer,
        ensures
            final(self).wf(),
            final(self).cost == old(self).cost,
            succeeded ==> final(self).stage == ClaimStage::Committed && final(self).accounts
                == committed(old(self).accounts, old(self).cost) && r == (Action::Emit {
                event: mint_event(final(self).accounts),
            }),
            !succeeded ==> final(self).stage == ClaimStage::Aborted && final(self).accounts == old(
                self,
            ).accounts && r == (Action::Abort { error: ErrorCode::AssetTransferFailed }),
    {
        if succeeded {
            self.accounts.user_lamports = self.accounts.user_lamports - self.cost;
            self.accounts.user_mint_reserve_state.freely_minted_amount =
            self.accounts.user_mint_reserve_state.freely_minted_amount + 1;
            self.accounts.collection_state.sold_art_amount =
            self.accounts.collection_state.sold_art_amount + 1;
            self.stage = ClaimStage::Committed;
            Action::Emit {
                event: SeasonMintEvent {
                    season_number: self.accounts.global_state.season_number,
                    sold_art_amount: self.accounts.collection_state.sold_art_amount,
                },
            }
        } else {
            self.stage = ClaimStage::Aborted;
            Action::Abort { error: ErrorCode::AssetTransferFailed }
        }
    }
}

impl FreelyMintNftOne {
    /// Runs the checks of a claim in order and returns the first failure.
    /// Nothing is changed.
    pub fn validate(&self, args: &FreelyMintNftOneArgs, kanon_state_key: &AccountKey) -> (r: Result<
        (),
        ErrorCode,
    >)
        ensures
            r == claim_check(*self, args.season_number, args.cost, *kanon_state_key),
    {
        if !self.global_state_key.same_as(kanon_state_key) {
            return Err(ErrorCode::InvalidGlobalAccount);
        }
        if args.season_number != self.global_state.season_number {
            return Err(ErrorCode::WrongSeasonNumber);
        }
        let step = self.collection_state.get_current_step(self.unix_timestamp);
        if step != SeasonStep::FreelyMint || !self.collection_state.has_supply_left() || args.cost
            != NFT_MINT_COST {
            return Err(ErrorCode::ConditionMismatch);
        }
        if self.user_mint_reserve_state.freely_minted_amount
            >= self.collection_state.max_freely_mint_quantity {
            return Err(ErrorCode::OutOfUserMaxQuantity);
        }
        if !self.user_is_signer {
            return Err(ErrorCode::MissingRequiredSignature);
        }
        if self.user_lamports < args.cost {
            return Err(ErrorCode::NotEnoughBalanceInUserWallet);
        }
        Ok(())
    }

    /// Runs a whole claim against the host's outcomes for the escrow and the
    /// token transfer. On success the accounts hold the committed claim and
    /// the emitted event is returned; on any failure they are left as they
    /// were, the transaction being undone as a whole.
    pub fn process(
        &mut self,
        args: &FreelyMintNftOneArgs,
        kanon_state_key: &AccountKey,
        escrow_ok: bool,
        transfer_ok: bool,
    ) -> (r: Result<SeasonMintEvent, ErrorCode>)
        ensures
            (*final(self), r) == claim_outcome(
                *old(self),
                args.season_number,
                args.cost,
                *kanon_state_key,
                escrow_ok,
                transfer_ok,
            ),
    {
        let (mut session, action) = ClaimSession::begin(*self, args, kanon_state_key);
        if let Action::Abort { error } = action {
            return Err(error);
        }
        let action = session.escrow_finished(escrow_ok);
        if let Action::Abort { error } = action {
            return Err(error);
        }
        let action = session.nft_transfer_finished(transfer_ok);
        match action {
            Action::Emit { event } => {
                *self = session.accounts;
                Ok(event)
            },
            Action::Abort { error } => Err(error),
            _ => {
                proof {
                    assert(false);
                }
                Err(ErrorCode::AssetTransferFailed)
            },
        }
    }
}

} // verus!
