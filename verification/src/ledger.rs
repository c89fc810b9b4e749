//! What holds of the pool across operations.
//!
//! The operations see one position at a time. The proofs here take the
//! whole of what is stored into view: every live position, kept by asset
//! and owner.

use vstd::prelude::*;
use crate::accounts::{
    ClaimReward, DailyReward, EpochBonus, Initialize, StakeNft, StakeUser, StartEpoch, UnStakeNft,
    UpdateMerkle,
};
use crate::allow_list::update_merkle_spec;
use crate::epoch::{initialize_spec, send_epoch_bonus_spec, start_epoch_spec};
use crate::error::StakeError;
use crate::rewards::{claim_payout, claim_reward_spec, daily_reward_spec};
use crate::staking::{initialize_user_spec, stake_spec, unstake_spec};
use crate::state::{Pubkey, StakeInfoState, StakeNftInfoState, EPOCH_DAYS, TOTAL_EPOCH};

verus! {

/// The live positions, each under its asset and its owner.
pub type Positions = Map<(Pubkey, Pubkey), StakeNftInfoState>;

/// What is stored for the asset `nft_mint` staked by `user_account`.
pub open spec fn position_at(positions: Positions, nft_mint: Pubkey, user_account: Pubkey)
    -> Option<StakeNftInfoState> {
    if positions.dom().contains((nft_mint, user_account)) {
        Some(positions[(nft_mint, user_account)])
    } else {
        None
    }
}

/// The positions after `record` has been put in the place of the asset
/// `nft_mint` staked by `user_account`: stored if it is `Some`, removed if
/// it is `None`.
pub open spec fn with_position(
    positions: Positions,
    nft_mint: Pubkey,
    user_account: Pubkey,
    record: Option<StakeNftInfoState>,
) -> Positions {
    match record {
        Some(position) => positions.insert((nft_mint, user_account), position),
        None => positions.remove((nft_mint, user_account)),
    }
}

/// The counter of staked assets says how many positions are live.
pub open spec fn counts_positions(stake_info: StakeInfoState, positions: Positions) -> bool {
    positions.dom().finite() && stake_info.total_stakers == positions.dom().len()
}

/// After every successful stake the counter of staked assets is again the
/// number of live positions.
pub proof fn lemma_stake_counts_positions(
    positions: Positions,
    ctx: StakeNft,
    proof_ok: bool,
    now: i64,
)
    requires
        counts_positions(ctx.stake_info, positions),
        ctx.stake_info_account == position_at(positions, ctx.nft_mint, ctx.user_account),
        stake_spec(ctx, proof_ok, now) is Ok,
    ensures
        ({
            let after = stake_spec(ctx, proof_ok, now)->Ok_0;
            counts_positions(
                after.stake_info,
                with_position(positions, ctx.nft_mint, ctx.user_account, after.stake_info_account),
            )
        }),
{
}

/// After every successful unstake the counter of staked assets is again
/// the number of live positions.
pub proof fn lemma_unstake_counts_positions(positions: Positions, ctx: UnStakeNft, proof_ok: bool)
    requires
        counts_positions(ctx.stake_info, positions),
        ctx.stake_info_account == position_at(positions, ctx.nft_mint, ctx.user_account),
        unstake_spec(ctx, proof_ok) is Ok,
    ensures
        ({
            let after = unstake_spec(ctx, proof_ok)->Ok_0;
            counts_positions(
                after.stake_info,
                with_position(positions, ctx.nft_mint, ctx.user_account, after.stake_info_account),
            )
        }),
{
}

/// Staking an asset and taking it back, by the same owner, leaves no
/// position behind and the counter of staked assets where it was; the
/// position that is removed names the owner who staked, so the asset goes
/// back to where it came from. The take-back succeeds whenever the carried
/// remainder has room for the participant's pending reward.
pub proof fn lemma_stake_then_unstake_restores(stake: StakeNft, now: i64, unstake: UnStakeNft)
    requires
        stake_spec(stake, true, now) is Ok,
        unstake.user_account == stake.user_account,
        unstake.nft_mint == stake.nft_mint,
        unstake.stake_info_account == stake_spec(stake, true, now)->Ok_0.stake_info_account,
        unstake.stake_info == stake_spec(stake, true, now)->Ok_0.stake_info,
        unstake.merkle == stake.merkle,
        unstake.nft_vault_owner == unstake.vault_auth,
        unstake.stake_user.user_account == unstake.user_account,
        unstake.epoch_state.is_initial,
        unstake.epoch_state.remain_reward + unstake.stake_user.pending_amount <= u64::MAX,
    ensures
        unstake_spec(unstake, true) is Ok,
        unstake_spec(unstake, true)->Ok_0.stake_info_account == stake.stake_info_account,
        unstake_spec(unstake, true)->Ok_0.stake_info_account is None,
        unstake_spec(unstake, true)->Ok_0.stake_info == stake.stake_info,
        unstake.stake_info_account->0.user_account == stake.user_account,
        unstake.stake_info_account->0.nft_mint == stake.nft_mint,
{
}

/// What a participant can withdraw never goes down, except when it is
/// claimed: registering, accruing a day's reward and taking an asset back
/// leave it as it was or raise it, and a claim lowers it by the whole of
/// what was claimable, which is the amount paid out.
pub proof fn lemma_claimable_drops_only_at_claim(
    register: StakeUser,
    accrue: DailyReward,
    unstake: UnStakeNft,
    proof_ok: bool,
    claim: ClaimReward,
)
    ensures
        initialize_user_spec(register) matches Ok(after) ==> after.stake_user.reward_amount
            == register.stake_user.reward_amount,
        daily_reward_spec(accrue) matches Ok(after) ==> after.stake_user_account.reward_amount
            >= accrue.stake_user_account.reward_amount,
        unstake_spec(unstake, proof_ok) matches Ok(after) ==> after.stake_user.reward_amount
            == unstake.stake_user.reward_amount,
        claim_reward_spec(claim) matches Ok(after) ==> after.stake_user.reward_amount
            == claim.stake_user.reward_amount - claim_payout(claim),
{
}

/// With nothing staked, accruing a day's reward is not an error and
/// changes nothing, as long as the pool is set up, the cycle has not ended
/// and the day counter is in range.
pub proof fn lemma_no_stakers_no_accrual(ctx: DailyReward)
    requires
        ctx.stake_info.total_stakers == 0,
        ctx.epoch_state.is_initial,
        ctx.stake_info.is_initial,
        ctx.epoch_state.epoch_no <= TOTAL_EPOCH,
        ctx.stake_info.day_of_epoch <= EPOCH_DAYS,
    ensures
        daily_reward_spec(ctx) == Ok::<DailyReward, StakeError>(ctx),
{
}

/// The epoch number goes down only by a restart: seeding, a bonus, the
/// next epoch and a take-back leave it or raise it. Past the last epoch
/// neither a bonus nor a next epoch is accepted.
pub proof fn lemma_epoch_number_never_decreases(
    seed: Initialize,
    amount: u64,
    bonus: EpochBonus,
    next: StartEpoch,
    now: i64,
    unstake: UnStakeNft,
    proof_ok: bool,
)
    ensures
        initialize_spec(seed, amount, now) matches Ok(after) ==> after.epoch_state.epoch_no
            >= seed.epoch_state.epoch_no,
        send_epoch_bonus_spec(bonus, amount) matches Ok(after) ==> after.epoch_state.epoch_no
            == bonus.epoch_state.epoch_no,
        start_epoch_spec(next, now) matches Ok(after) ==> after.epoch_state.epoch_no
            == next.epoch_state.epoch_no + 1,
        unstake_spec(unstake, proof_ok) matches Ok(after) ==> after.epoch_state.epoch_no
            == unstake.epoch_state.epoch_no,
        bonus.epoch_state.epoch_no > TOTAL_EPOCH ==> send_epoch_bonus_spec(bonus, amount) is Err,
        next.epoch_state.epoch_no > TOTAL_EPOCH ==> start_epoch_spec(next, now) is Err,
{
}

/// Only the recorded administrator replaces the root, and replacing it
/// changes neither who the administrator is nor that a root is published.
pub proof fn lemma_root_changes_only_by_admin(ctx: UpdateMerkle, root: [u8; 32])
    ensures
        update_merkle_spec(ctx, root) matches Ok(after) ==> {
            &&& ctx.admin_account == ctx.merkle.admin_account
            &&& after.merkle.admin_account == ctx.merkle.admin_account
            &&& after.merkle.is_init
            &&& after.merkle.root == root
        },
        ctx.admin_account != ctx.merkle.admin_account ==> update_merkle_spec(ctx, root) == Err::<
            UpdateMerkle,
            StakeError,
        >(StakeError::Unauthorized),
{
}

} // verus!
