use vstd::prelude::*;
use crate::error::ErrorCode;
use crate::freely_mint_nft_one::{claim_check, claim_outcome, FreelyMintNftOne, SeasonMintEvent};
use crate::state::{remaining_supply, step_at, AccountKey, CollectionAccount, SeasonStep, NFT_MINT_COST};

verus! {

/// A request naming another season than the current one is rejected with
/// `WrongSeasonNumber` and changes nothing.
pub proof fn lemma_wrong_season_rejected(
    s: FreelyMintNftOne,
    season_number: u8,
    cost: u64,
    kanon_state_key: AccountKey,
    escrow_ok: bool,
    transfer_ok: bool,
)
    requires
        s.global_state_key.bytes@ == kanon_state_key.bytes@,
        season_number != s.global_state.season_number,
    ensures
        claim_outcome(s, season_number, cost, kanon_state_key, escrow_ok, transfer_ok) == (
        s,
        Err::<SeasonMintEvent, ErrorCode>(ErrorCode::WrongSeasonNumber),
        ),
{
}

/// Outside the free-mint phase a request is rejected with
/// `ConditionMismatch` and changes nothing.
pub proof fn lemma_wrong_phase_rejected(
    s: FreelyMintNftOne,
    season_number: u8,
    cost: u64,
    kanon_state_key: AccountKey,
    escrow_ok: bool,
    transfer_ok: bool,
)
    requires
        s.global_state_key.bytes@ == kanon_state_key.bytes@,
        season_number == s.global_state.season_number,
        step_at(s.collection_state, s.unix_timestamp) != SeasonStep::FreelyMint,
    ensures
        claim_outcome(s, season_number, cost, kanon_state_key, escrow_ok, transfer_ok) == (
        s,
        Err::<SeasonMintEvent, ErrorCode>(ErrorCode::ConditionMismatch),
        ),
{
}

/// Once everything sellable is sold, a request is rejected with
/// `ConditionMismatch` and changes nothing.
pub proof fn lemma_sold_out_rejected(
    s: FreelyMintNftOne,
    season_number: u8,
    cost: u64,
    kanon_state_key: AccountKey,
    escrow_ok: bool,
    transfer_ok: bool,
)
    requires
        s.global_state_key.bytes@ == kanon_state_key.bytes@,
        season_number == s.global_state.season_number,
        s.collection_state.sold_art_amount == s.collection_state.art_amount
            - s.collection_state.promos_reserved_nfts_amount,
    ensures
        claim_outcome(s, season_number, cost, kanon_state_key, escrow_ok, transfer_ok) == (
        s,
        Err::<SeasonMintEvent, ErrorCode>(ErrorCode::ConditionMismatch),
        ),
{
}

/// A request offering any other amount than the mint cost is rejected with
/// `ConditionMismatch` and changes nothing.
pub proof fn lemma_wrong_cost_rejected(
    s: FreelyMintNftOne,
    season_number: u8,
    cost: u64,
    kanon_state_key: AccountKey,
    escrow_ok: bool,
    transfer_ok: bool,
)
    requires
        s.global_state_key.bytes@ == kanon_state_key.bytes@,
        season_number == s.global_state.season_number,
        cost != NFT_MINT_COST,
    ensures
        claim_outcome(s, season_number, cost, kanon_state_key, escrow_ok, transfer_ok) == (
        s,
        Err::<SeasonMintEvent, ErrorCode>(ErrorCode::ConditionMismatch),
        ),
{
}

/// The checks that come before the per-user quota all pass.
pub open spec fn passes_request_checks(
    s: FreelyMintNftOne,
    season_number: u8,
    cost: u64,
    kanon_state_key: AccountKey,
) -> bool {
    &&& s.global_state_key.bytes@ == kanon_state_key.bytes@
    &&& season_number == s.global_state.season_number
    &&& step_at(s.collection_state, s.unix_timestamp) == SeasonStep::FreelyMint
    &&& remaining_supply(s.collection_state) > 0
    &&& cost == NFT_MINT_COST
}

/// A user who has minted their whole quota is rejected with
/// `OutOfUserMaxQuantity`, and their counter stays as it was.
pub proof fn lemma_quota_reached_rejected(
    s: FreelyMintNftOne,
    season_number: u8,
    cost: u64,
    kanon_state_key: AccountKey,
    escrow_ok: bool,
    transfer_ok: bool,
)
    requires
        passes_request_checks(s, season_number, cost, kanon_state_key),
        s.user_mint_reserve_state.freely_minted_amount
            == s.collection_state.max_freely_mint_quantity,
    ensures
        claim_outcome(s, season_number, cost, kanon_state_key, escrow_ok, transfer_ok) == (
        s,
        Err::<SeasonMintEvent, ErrorCode>(ErrorCode::OutOfUserMaxQuantity),
        ),
{
}

/// A signed request from a user who cannot pay is rejected with
/// `NotEnoughBalanceInUserWallet` before any transfer is asked for, whatever
/// the host would have answered, and no lamport or token moves.
pub proof fn lemma_short_balance_rejected(
    s: FreelyMintNftOne,
    season_number: u8,
    cost: u64,
    kanon_state_key: AccountKey,
    escrow_ok: bool,
    transfer_ok: bool,
)
    requires
        passes_request_checks(s, season_number, cost, kanon_state_key),
        s.user_mint_reserve_state.freely_minted_amount
            < s.collection_state.max_freely_mint_quantity,
        s.user_is_signer,
        s.user_lamports < cost,
    ensures
        claim_check(s, season_number, cost, kanon_state_key) == Err::<(), ErrorCode>(
            ErrorCode::NotEnoughBalanceInUserWallet,
        ),
        claim_outcome(s, season_number, cost, kanon_state_key, escrow_ok, transfer_ok) == (
        s,
        Err::<SeasonMintEvent, ErrorCode>(ErrorCode::NotEnoughBalanceInUserWallet),
        ),
{
}

/// A rejected claim leaves the accounts as they were, so the same request
/// against them, with the host answering as before, is rejected the same way.
pub proof fn lemma_rejection_repeats(
    s: FreelyMintNftOne,
    season_number: u8,
    cost: u64,
    kanon_state_key: AccountKey,
    escrow_ok: bool,
    transfer_ok: bool,
)
    requires
        claim_outcome(s, season_number, cost, kanon_state_key, escrow_ok, transfer_ok).1 is Err,
    ensures
        claim_outcome(s, season_number, cost, kanon_state_key, escrow_ok, transfer_ok).0 == s,
        claim_outcome(
            claim_outcome(s, season_number, cost, kanon_state_key, escrow_ok, transfer_ok).0,
            season_number,
            cost,
            kanon_state_key,
            escrow_ok,
            transfer_ok,
        ) == claim_outcome(s, season_number, cost, kanon_state_key, escrow_ok, transfer_ok),
{
}

/// When the token transfer fails after the escrow went through, the whole
/// claim is undone: no lamport is charged and no counter moves.
pub proof fn lemma_failed_transfer_rolls_back(
    s: FreelyMintNftOne,
    season_number: u8,
    cost: u64,
    kanon_state_key: AccountKey,
)
    requires
        claim_check(s, season_number, cost, kanon_state_key) is Ok,
    ensures
        claim_outcome(s, season_number, cost, kanon_state_key, true, false) == (
        s,
        Err::<SeasonMintEvent, ErrorCode>(ErrorCode::AssetTransferFailed),
        ),
{
}

/// A claim keeps the collection and the user's record well formed: never
/// more sold than the sellable supply, never more minted than the quota.
pub proof fn lemma_claim_keeps_invariants(
    s: FreelyMintNftOne,
    season_number: u8,
    cost: u64,
    kanon_state_key: AccountKey,
    escrow_ok: bool,
    transfer_ok: bool,
)
    requires
        s.collection_state.wf(),
        s.user_mint_reserve_state.freely_minted_amount
            <= s.collection_state.max_freely_mint_quantity,
    ensures
        ({
            let t = claim_outcome(s, season_number, cost, kanon_state_key, escrow_ok, transfer_ok).0;
            &&& t.collection_state.wf()
            &&& t.user_mint_reserve_state.freely_minted_amount
                <= t.collection_state.max_freely_mint_quantity
        }),
{
}

/// `s` with the shared collection record replaced by `c`.
pub open spec fn with_collection(s: FreelyMintNftOne, c: CollectionAccount) -> FreelyMintNftOne {
    FreelyMintNftOne { collection_state: c, ..s }
}

/// Every check but the supply check passes for `s` against the collection
/// `c`; none of them reads how much is sold.
pub open spec fn passes_all_but_supply(
    s: FreelyMintNftOne,
    c: CollectionAccount,
    season_number: u8,
    cost: u64,
    kanon_state_key: AccountKey,
) -> bool {
    &&& s.global_state_key.bytes@ == kanon_state_key.bytes@
    &&& season_number == s.global_state.season_number
    &&& step_at(c, s.unix_timestamp) == SeasonStep::FreelyMint
    &&& cost == NFT_MINT_COST
    &&& s.user_mint_reserve_state.freely_minted_amount < c.max_freely_mint_quantity
    &&& s.user_is_signer
    &&& cost <= s.user_lamports
}

/// Claims that the host runs one after the other against one collection,
/// each with both transfers going through: the collection afterwards and
/// each claim's result, in order.
pub open spec fn run_claims(
    c: CollectionAccount,
    claims: Seq<FreelyMintNftOne>,
    season_number: u8,
    cost: u64,
    kanon_state_key: AccountKey,
) -> (CollectionAccount, Seq<Result<SeasonMintEvent, ErrorCode>>)
    decreases claims.len(),
{
    if claims.len() == 0 {
        (c, Seq::empty())
    } else {
        let (c1, rs) = run_claims(c, claims.drop_last(), season_number, cost, kanon_state_key);
        let out = claim_outcome(
            with_collection(claims.last(), c1),
            season_number,
            cost,
            kanon_state_key,
            true,
            true,
        );
        (out.0.collection_state, rs.push(out.1))
    }
}

/// Any number of claims, each valid but for supply, run one after another
/// against a collection with `m` units left: the first `min(n, m)` succeed,
/// the others are rejected with `ConditionMismatch`, and only the sold
/// count moves, by exactly the number of successes.
pub proof fn lemma_serialized_claims_prefix(
    c: CollectionAccount,
    claims: Seq<FreelyMintNftOne>,
    season_number: u8,
    cost: u64,
    kanon_state_key: AccountKey,
)
    requires
        c.wf(),
        forall|i: int|
            0 <= i < claims.len() ==> passes_all_but_supply(
                #[trigger] claims[i],
                c,
                season_number,
                cost,
                kanon_state_key,
            ),
    ensures
        ({
            let (cf, rs) = run_claims(c, claims, season_number, cost, kanon_state_key);
            let k = if claims.len() < remaining_supply(c) {
                claims.len() as int
            } else {
                remaining_supply(c)
            };
            &&& cf == CollectionAccount { sold_art_amount: (c.sold_art_amount + k) as u64, ..c }
            &&& rs.len() == claims.len()
            &&& forall|i: int| 0 <= i < k ==> (#[trigger] rs[i]) is Ok
            &&& forall|i: int|
                k <= i < claims.len() ==> #[trigger] rs[i] == Err::<SeasonMintEvent, ErrorCode>(
                    ErrorCode::ConditionMismatch,
                )
        }),
    decreases claims.len(),
{
    if claims.len() > 0 {
        let prefix = claims.drop_last();
        assert forall|i: int| 0 <= i < prefix.len() implies passes_all_but_supply(
            #[trigger] prefix[i],
            c,
            season_number,
            cost,
            kanon_state_key,
        ) by {
            assert(prefix[i] == claims[i]);
        }
        lemma_serialized_claims_prefix(c, prefix, season_number, cost, kanon_state_key);
        assert(passes_all_but_supply(claims[claims.len() - 1], c, season_number, cost, kanon_state_key));
    }
}

/// A predicate that holds on exactly the first `k` items keeps `k` of them.
proof fn lemma_filter_prefix_len<A>(xs: Seq<A>, pred: spec_fn(A) -> bool, k: int)
    requires
        0 <= k <= xs.len(),
        forall|i: int| 0 <= i < k ==> pred(#[trigger] xs[i]),
        forall|i: int| k <= i < xs.len() ==> !pred(#[trigger] xs[i]),
    ensures
        xs.filter(pred).len() == k,
    decreases xs.len(),
{
    reveal(Seq::filter);
    if xs.len() > 0 {
        let p = xs.drop_last();
        assert forall|i: int| 0 <= i < p.len() implies #[trigger] p[i] == xs[i] by {}
        if k == xs.len() {
            assert(pred(xs[xs.len() - 1]));
            lemma_filter_prefix_len(p, pred, k - 1);
        } else {
            assert(!pred(xs[xs.len() - 1]));
            lemma_filter_prefix_len(p, pred, k);
        }
    }
}

/// A predicate that holds on exactly the items from `k` on keeps
/// `len - k` of them.
proof fn lemma_filter_suffix_len<A>(xs: Seq<A>, pred: spec_fn(A) -> bool, k: int)
    requires
        0 <= k <= xs.len(),
        forall|i: int| 0 <= i < k ==> !pred(#[trigger] xs[i]),
        forall|i: int| k <= i < xs.len() ==> pred(#[trigger] xs[i]),
    ensures
        xs.filter(pred).len() == xs.len() - k,
    decreases xs.len(),
{
    reveal(Seq::filter);
    if xs.len() > 0 {
        let p = xs.drop_last();
        assert forall|i: int| 0 <= i < p.len() implies #[trigger] p[i] == xs[i] by {}
        if k == xs.len() {
            assert(!pred(xs[xs.len() - 1]));
            lemma_filter_suffix_len(p, pred, k - 1);
        } else {
            assert(pred(xs[xs.len() - 1]));
            lemma_filter_suffix_len(p, pred, k);
        }
    }
}

/// `n` claims, each valid but for supply, against a collection with fewer
/// units left, `m < n`: exactly `m` succeed, the other `n - m` are rejected
/// with `ConditionMismatch`, and the sold count rises by exactly `m`.
pub proof fn lemma_no_oversell(
    c: CollectionAccount,
    claims: Seq<FreelyMintNftOne>,
    season_number: u8,
    cost: u64,
    kanon_state_key: AccountKey,
)
    requires
        c.wf(),
        remaining_supply(c) < claims.len(),
        forall|i: int|
            0 <= i < claims.len() ==> passes_all_but_supply(
                #[trigger] claims[i],
                c,
                season_number,
                cost,
                kanon_state_key,
            ),
    ensures
        ({
            let (cf, rs) = run_claims(c, claims, season_number, cost, kanon_state_key);
            let m = remaining_supply(c);
            &&& cf.sold_art_amount == c.sold_art_amount + m
            &&& rs.filter(|r: Result<SeasonMintEvent, ErrorCode>| r is Ok).len() == m
            &&& rs.filter(
                |r: Result<SeasonMintEvent, ErrorCode>| r == Err::<SeasonMintEvent, ErrorCode>(
                    ErrorCode::ConditionMismatch,
                ),
            ).len() == claims.len() - m
        }),
{
    lemma_serialized_claims_prefix(c, claims, season_number, cost, kanon_state_key);
    let rs = run_claims(c, claims, season_number, cost, kanon_state_key).1;
    let m = remaining_supply(c);
    let is_ok = |r: Result<SeasonMintEvent, ErrorCode>| r is Ok;
    let is_mismatch = |r: Result<SeasonMintEvent, ErrorCode>|
        r == Err::<SeasonMintEvent, ErrorCode>(ErrorCode::ConditionMismatch);
    lemma_filter_prefix_len(rs, is_ok, m);
    lemma_filter_suffix_len(rs, is_mismatch, m);
}

} // verus!
