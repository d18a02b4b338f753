use synesis_program::{
    AccountKey, Action, ClaimSession, ClaimStage, CollectionAccount, ErrorCode, FreelyMintNftOne,
    FreelyMintNftOneArgs, GlobalAccount, SeasonMintEvent, SeasonStep, UserMintReserveAccount,
    NFT_MINT_COST,
};

const SOL: u64 = 1_000_000_000;

fn state_key() -> AccountKey {
    AccountKey { bytes: [7u8; 32] }
}

fn collection(art_amount: u64, promos: u64, sold: u64, max_per_user: u64) -> CollectionAccount {
    CollectionAccount {
        whitelist_sale_start: 100,
        public_sale_start: 200,
        freely_mint_start: 300,
        closed_at: 400,
        sold_art_amount: sold,
        art_amount,
        promos_reserved_nfts_amount: promos,
        max_freely_mint_quantity: max_per_user,
        bump: 254,
        authority_bump: 253,
    }
}

fn accounts(c: CollectionAccount, minted: u64, lamports: u64) -> FreelyMintNftOne {
    FreelyMintNftOne {
        global_state_key: state_key(),
        global_state: GlobalAccount { season_number: 3, admin_treasury_account_bump: 250 },
        collection_state: c,
        user_mint_reserve_state: UserMintReserveAccount { freely_minted_amount: minted, bump: 251 },
        user_is_signer: true,
        user_lamports: lamports,
        unix_timestamp: 350,
    }
}

fn args(season_number: u8, cost: u64) -> FreelyMintNftOneArgs {
    FreelyMintNftOneArgs {
        season_number,
        whitelist_proof: vec![[1u8; 32]],
        cost,
        user_mint_reserve_bump: 251,
    }
}

fn fields(s: &FreelyMintNftOne) -> (u64, u64, u64) {
    (
        s.collection_state.sold_art_amount,
        s.user_mint_reserve_state.freely_minted_amount,
        s.user_lamports,
    )
}

#[test]
fn end_to_end_claim_then_quota() {
    let mut s = accounts(collection(10, 0, 0, 1), 0, 5 * SOL);
    let r = s.process(&args(3, 2 * SOL), &state_key(), true, true);
    assert_eq!(r, Ok(SeasonMintEvent { season_number: 3, sold_art_amount: 1 }));
    assert_eq!(fields(&s), (1, 1, 3 * SOL));
    let r = s.process(&args(3, 2 * SOL), &state_key(), true, true);
    assert_eq!(r, Err(ErrorCode::OutOfUserMaxQuantity));
    assert_eq!(fields(&s), (1, 1, 3 * SOL));
}

#[test]
fn mint_cost_is_two_sol() {
    assert_eq!(NFT_MINT_COST, 2 * SOL);
}

#[test]
fn wrong_global_account_rejected() {
    let mut s = accounts(collection(10, 0, 0, 1), 0, 5 * SOL);
    let mut other = state_key();
    other.bytes[31] = 8;
    let r = s.process(&args(3, NFT_MINT_COST), &other, true, true);
    assert_eq!(r, Err(ErrorCode::InvalidGlobalAccount));
    assert_eq!(fields(&s), (0, 0, 5 * SOL));
}

#[test]
fn wrong_season_rejected() {
    let mut s = accounts(collection(10, 0, 0, 1), 0, 5 * SOL);
    let r = s.process(&args(4, NFT_MINT_COST), &state_key(), true, true);
    assert_eq!(r, Err(ErrorCode::WrongSeasonNumber));
    assert_eq!(fields(&s), (0, 0, 5 * SOL));
}

#[test]
fn wrong_phase_rejected() {
    for t in [0i64, 150, 250, 400, 1000] {
        let mut s = accounts(collection(10, 0, 0, 1), 0, 5 * SOL);
        s.unix_timestamp = t;
        let r = s.process(&args(3, NFT_MINT_COST), &state_key(), true, true);
        assert_eq!(r, Err(ErrorCode::ConditionMismatch));
        assert_eq!(fields(&s), (0, 0, 5 * SOL));
    }
}

#[test]
fn phase_follows_boundaries() {
    let c = collection(10, 0, 0, 1);
    assert_eq!(c.get_current_step(99), SeasonStep::NotStarted);
    assert_eq!(c.get_current_step(100), SeasonStep::WhitelistSale);
    assert_eq!(c.get_current_step(200), SeasonStep::PublicSale);
    assert_eq!(c.get_current_step(300), SeasonStep::FreelyMint);
    assert_eq!(c.get_current_step(399), SeasonStep::FreelyMint);
    assert_eq!(c.get_current_step(400), SeasonStep::Closed);
}

#[test]
fn sold_out_rejected() {
    let mut s = accounts(collection(10, 4, 6, 1), 0, 5 * SOL);
    let r = s.process(&args(3, NFT_MINT_COST), &state_key(), true, true);
    assert_eq!(r, Err(ErrorCode::ConditionMismatch));
    assert_eq!(fields(&s), (6, 0, 5 * SOL));
}

#[test]
fn promos_above_supply_rejected() {
    let mut s = accounts(collection(3, 5, 0, 1), 0, 5 * SOL);
    let r = s.process(&args(3, NFT_MINT_COST), &state_key(), true, true);
    assert_eq!(r, Err(ErrorCode::ConditionMismatch));
}

#[test]
fn last_unit_can_be_claimed() {
    let mut s = accounts(collection(10, 4, 5, 1), 0, 5 * SOL);
    let r = s.process(&args(3, NFT_MINT_COST), &state_key(), true, true);
    assert_eq!(r, Ok(SeasonMintEvent { season_number: 3, sold_art_amount: 6 }));
    assert!(!s.collection_state.has_supply_left());
}

#[test]
fn wrong_cost_rejected() {
    for cost in [0u64, NFT_MINT_COST - 1, NFT_MINT_COST + 1, u64::MAX] {
        let mut s = accounts(collection(10, 0, 0, 1), 0, u64::MAX);
        let r = s.process(&args(3, cost), &state_key(), true, true);
        assert_eq!(r, Err(ErrorCode::ConditionMismatch));
        assert_eq!(fields(&s), (0, 0, u64::MAX));
    }
}

#[test]
fn quota_reached_rejected() {
    let mut s = accounts(collection(10, 0, 0, 2), 2, 5 * SOL);
    let r = s.process(&args(3, NFT_MINT_COST), &state_key(), true, true);
    assert_eq!(r, Err(ErrorCode::OutOfUserMaxQuantity));
    assert_eq!(fields(&s), (0, 2, 5 * SOL));
}

#[test]
fn unsigned_request_rejected() {
    let mut s = accounts(collection(10, 0, 0, 1), 0, 5 * SOL);
    s.user_is_signer = false;
    let r = s.process(&args(3, NFT_MINT_COST), &state_key(), true, true);
    assert_eq!(r, Err(ErrorCode::MissingRequiredSignature));
}

#[test]
fn short_balance_rejected_before_escrow() {
    let s = accounts(collection(10, 0, 0, 1), 0, NFT_MINT_COST - 1);
    let (session, action) = ClaimSession::begin(s, &args(3, NFT_MINT_COST), &state_key());
    assert_eq!(action, Action::Abort { error: ErrorCode::NotEnoughBalanceInUserWallet });
    assert_eq!(session.stage, ClaimStage::Aborted);
    let mut s = s;
    let r = s.process(&args(3, NFT_MINT_COST), &state_key(), true, true);
    assert_eq!(r, Err(ErrorCode::NotEnoughBalanceInUserWallet));
    assert_eq!(fields(&s), (0, 0, NFT_MINT_COST - 1));
}

#[test]
fn exact_balance_is_enough() {
    let mut s = accounts(collection(10, 0, 0, 1), 0, NFT_MINT_COST);
    let r = s.process(&args(3, NFT_MINT_COST), &state_key(), true, true);
    assert!(r.is_ok());
    assert_eq!(fields(&s), (1, 1, 0));
}

#[test]
fn first_failing_check_decides() {
    let mut s = accounts(collection(10, 0, 10, 1), 1, 0);
    s.user_is_signer = false;
    s.unix_timestamp = 0;
    assert_eq!(s.validate(&args(9, 1), &state_key()), Err(ErrorCode::WrongSeasonNumber));
    assert_eq!(s.validate(&args(3, 1), &state_key()), Err(ErrorCode::ConditionMismatch));
    let mut s = accounts(collection(10, 0, 0, 1), 1, 0);
    s.user_is_signer = false;
    assert_eq!(s.validate(&args(3, NFT_MINT_COST), &state_key()), Err(ErrorCode::OutOfUserMaxQuantity));
    s.user_mint_reserve_state.freely_minted_amount = 0;
    assert_eq!(
        s.validate(&args(3, NFT_MINT_COST), &state_key()),
        Err(ErrorCode::MissingRequiredSignature)
    );
    s.user_is_signer = true;
    assert_eq!(
        s.validate(&args(3, NFT_MINT_COST), &state_key()),
        Err(ErrorCode::NotEnoughBalanceInUserWallet)
    );
    s.user_lamports = NFT_MINT_COST;
    assert_eq!(s.validate(&args(3, NFT_MINT_COST), &state_key()), Ok(()));
}

#[test]
fn rejection_repeats_the_same() {
    let mut s = accounts(collection(10, 0, 0, 1), 1, 5 * SOL);
    let first = s.process(&args(3, NFT_MINT_COST), &state_key(), true, true);
    let second = s.process(&args(3, NFT_MINT_COST), &state_key(), true, true);
    assert_eq!(first, Err(ErrorCode::OutOfUserMaxQuantity));
    assert_eq!(first, second);
    let mut s = accounts(collection(10, 0, 0, 1), 0, 5 * SOL);
    let first = s.process(&args(3, NFT_MINT_COST), &state_key(), true, false);
    let second = s.process(&args(3, NFT_MINT_COST), &state_key(), true, false);
    assert_eq!(first, Err(ErrorCode::AssetTransferFailed));
    assert_eq!(first, second);
}

#[test]
fn failed_escrow_changes_nothing() {
    let mut s = accounts(collection(10, 0, 0, 1), 0, 5 * SOL);
    let r = s.process(&args(3, NFT_MINT_COST), &state_key(), false, true);
    assert_eq!(r, Err(ErrorCode::EscrowFailed));
    assert_eq!(fields(&s), (0, 0, 5 * SOL));
}

#[test]
fn failed_nft_transfer_rolls_back_escrow() {
    let s = accounts(collection(10, 0, 0, 1), 0, 5 * SOL);
    let (mut session, action) = ClaimSession::begin(s, &args(3, NFT_MINT_COST), &state_key());
    assert_eq!(action, Action::EscrowFunds { cost: NFT_MINT_COST });
    assert_eq!(
        session.escrow_finished(true),
        Action::TransferNft { amount: 1, authority_bump: 253 }
    );
    assert_eq!(
        session.nft_transfer_finished(false),
        Action::Abort { error: ErrorCode::AssetTransferFailed }
    );
    assert_eq!(session.stage, ClaimStage::Aborted);
    assert_eq!(fields(&session.accounts), (0, 0, 5 * SOL));
    let mut s = s;
    let r = s.process(&args(3, NFT_MINT_COST), &state_key(), true, false);
    assert_eq!(r, Err(ErrorCode::AssetTransferFailed));
    assert_eq!(fields(&s), (0, 0, 5 * SOL));
}

#[test]
fn session_commits_after_both_transfers() {
    let s = accounts(collection(10, 0, 3, 2), 1, 5 * SOL);
    let (mut session, action) = ClaimSession::begin(s, &args(3, NFT_MINT_COST), &state_key());
    assert_eq!(action, Action::EscrowFunds { cost: NFT_MINT_COST });
    assert_eq!(session.stage, ClaimStage::AwaitingEscrow);
    session.escrow_finished(true);
    assert_eq!(session.stage, ClaimStage::AwaitingNftTransfer);
    assert_eq!(fields(&session.accounts), (3, 1, 5 * SOL));
    let action = session.nft_transfer_finished(true);
    assert_eq!(
        action,
        Action::Emit { event: SeasonMintEvent { season_number: 3, sold_art_amount: 4 } }
    );
    assert_eq!(session.stage, ClaimStage::Committed);
    assert_eq!(fields(&session.accounts), (4, 2, 3 * SOL));
}

#[test]
fn serialized_claims_never_oversell() {
    let mut c = collection(10, 2, 5, 1);
    let mut successes = 0u64;
    let mut mismatches = 0u64;
    for user in 0..7u8 {
        let mut s = accounts(c, 0, 5 * SOL);
        s.user_mint_reserve_state.bump = user;
        match s.process(&args(3, NFT_MINT_COST), &state_key(), true, true) {
            Ok(_) => successes += 1,
            Err(e) => {
                assert_eq!(e, ErrorCode::ConditionMismatch);
                mismatches += 1;
            }
        }
        c = s.collection_state;
    }
    assert_eq!(successes, 3);
    assert_eq!(mismatches, 4);
    assert_eq!(c.sold_art_amount, 8);
}
