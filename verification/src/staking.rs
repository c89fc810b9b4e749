//! Admission: registering participants, staking assets and taking them
//! back.
//!
//! Staking and taking back are gated by an inclusion proof for the asset.
//! `process_stake_nft` and `process_unstake_nft` check the proof and hand
//! the verdict to `stake_with_verdict` and `unstake_with_verdict`, which
//! hold the rules.

use vstd::prelude::*;
use crate::accounts::{StakeNft, StakeUser, UnStakeNft};
use crate::error::{follows, StakeError};
use crate::merkle_proof::{leaf_hash, leaf_of, proof_view, proves, verify};
use crate::state::{EpochState, StakeInfoState, StakeNftInfoState, StakeUserState};

verus! {

/// Registering a participant: refused exactly when the record is in use;
/// else the record belongs to the caller. Its balances are not touched.
pub open spec fn initialize_user_spec(ctx: StakeUser) -> Result<StakeUser, StakeError> {
    if ctx.stake_user.is_initial {
        Err(StakeError::AccountAlreadyInitialized)
    } else {
        Ok(
            StakeUser {
                stake_user: StakeUserState {
                    user_account: ctx.user_account,
                    is_initial: true,
                    ..ctx.stake_user
                },
                ..ctx
            },
        )
    }
}

/// Registers the caller as a participant.
pub fn process_initialize_user(ctx: &mut StakeUser) -> (result: Result<(), StakeError>)
    ensures
        follows(initialize_user_spec(*old(ctx)), *old(ctx), *final(ctx), result),
        final(ctx).stake_user.reward_amount == old(ctx).stake_user.reward_amount,
{
    if ctx.stake_user.is_initial {
        return Err(StakeError::AccountAlreadyInitialized);
    }
    ctx.stake_user.user_account = ctx.user_account;
    ctx.stake_user.is_initial = true;
    Ok(())
}

/// Why an asset cannot be staked, if it cannot. `proof_ok` says whether the
/// asset's inclusion proof holds against the published root.
pub open spec fn stake_rejection(ctx: StakeNft, proof_ok: bool) -> Option<StakeError> {
    if ctx.stake_info_account is Some {
        Some(StakeError::AccountAlreadyInitialized)
    } else if !ctx.merkle.is_init || !ctx.stake_info.is_initial {
        Some(StakeError::UninitializedAccount)
    } else if !proof_ok {
        Some(StakeError::InvalidProof)
    } else if ctx.stake_info.total_stakers + 1 > u16::MAX {
        Some(StakeError::ArithmeticOverflow)
    } else {
        None
    }
}

/// The records after an asset has been staked at `now`: its position
/// exists, and one asset more is staked.
pub open spec fn stake_effect(ctx: StakeNft, now: i64) -> StakeNft {
    StakeNft {
        stake_info_account: Some(
            StakeNftInfoState {
                user_account: ctx.user_account,
                nft_mint: ctx.nft_mint,
                stake_time: now,
            },
        ),
        stake_info: StakeInfoState {
            total_stakers: (ctx.stake_info.total_stakers + 1) as u16,
            ..ctx.stake_info
        },
        ..ctx
    }
}

/// Staking an asset: refused as `stake_rejection` says, else with the
/// effect that `stake_effect` gives.
pub open spec fn stake_spec(ctx: StakeNft, proof_ok: bool, now: i64) -> Result<
    StakeNft,
    StakeError,
> {
    match stake_rejection(ctx, proof_ok) {
        Some(e) => Err(e),
        None => Ok(stake_effect(ctx, now)),
    }
}

/// Stakes an asset at clock reading `now`, given the verdict `proof_ok` on
/// its inclusion proof. On success the caller has to move the asset from
/// `user_account` into the vault and store the position record.
pub fn stake_with_verdict(ctx: &mut StakeNft, proof_ok: bool, now: i64) -> (result: Result<
    (),
    StakeError,
>)
    ensures
        follows(stake_spec(*old(ctx), proof_ok, now), *old(ctx), *final(ctx), result),
{
    if ctx.stake_info_account.is_some() {
        return Err(StakeError::AccountAlreadyInitialized);
    }
    if !ctx.merkle.is_init {
        return Err(StakeError::UninitializedAccount);
    }
    if !ctx.stake_info.is_initial {
        return Err(StakeError::UninitializedAccount);
    }
    if !proof_ok {
        return Err(StakeError::InvalidProof);
    }
    let total_stakers = match ctx.stake_info.total_stakers.checked_add(1) {
        Some(count) => count,
        None => {
            return Err(StakeError::ArithmeticOverflow);
        },
    };
    ctx.stake_info_account = Some(
        StakeNftInfoState {
            user_account: ctx.user_account,
            nft_mint: ctx.nft_mint,
            stake_time: now,
        },
    );
    ctx.stake_info.total_stakers = total_stakers;
    Ok(())
}

/// Stakes an asset at clock reading `now`. The proof is checked against
/// the published root, with the asset's leaf; the rest is
/// `stake_with_verdict`.
pub fn process_stake_nft(ctx: &mut StakeNft, proof: Vec<[u8; 32]>, now: i64) -> (result: Result<
    (),
    StakeError,
>)
    ensures
        follows(
            stake_spec(
                *old(ctx),
                proves(proof_view(proof@), old(ctx).merkle.root@, leaf_of(old(ctx).nft_mint@)),
                now,
            ),
            *old(ctx),
            *final(ctx),
            result,
        ),
{
    let node = leaf_hash(&ctx.nft_mint);
    let proof_ok = verify(proof, ctx.merkle.root, node);
    stake_with_verdict(ctx, proof_ok, now)
}

/// Why an asset cannot be taken back, if it cannot. `proof_ok` says whether
/// the asset's inclusion proof holds against the published root.
pub open spec fn unstake_rejection(ctx: UnStakeNft, proof_ok: bool) -> Option<StakeError> {
    if ctx.stake_info_account is None {
        Some(StakeError::UninitializedAccount)
    } else if ctx.nft_vault_owner != ctx.vault_auth {
        Some(StakeError::WrongOwner)
    } else if ctx.stake_info_account->0.user_account != ctx.user_account {
        Some(StakeError::WrongOwner)
    } else if ctx.stake_user.user_account != ctx.user_account {
        Some(StakeError::WrongOwner)
    } else if !ctx.epoch_state.is_initial || !ctx.stake_info.is_initial || !ctx.merkle.is_init {
        Some(StakeError::UninitializedAccount)
    } else if !proof_ok {
        Some(StakeError::InvalidProof)
    } else if ctx.epoch_state.remain_reward + ctx.stake_user.pending_amount > u64::MAX {
        Some(StakeError::ArithmeticOverflow)
    } else if ctx.stake_info.total_stakers == 0 {
        Some(StakeError::ArithmeticOverflow)
    } else {
        None
    }
}

/// The records after an asset has been taken back: its position is gone,
/// the participant's pending reward has moved to the carried remainder, and
/// one asset less is staked.
pub open spec fn unstake_effect(ctx: UnStakeNft) -> UnStakeNft {
    UnStakeNft {
        stake_info_account: None,
        stake_user: StakeUserState { pending_amount: 0, ..ctx.stake_user },
        epoch_state: EpochState {
            remain_reward: (ctx.epoch_state.remain_reward + ctx.stake_user.pending_amount) as u64,
            ..ctx.epoch_state
        },
        stake_info: StakeInfoState {
            total_stakers: (ctx.stake_info.total_stakers - 1) as u16,
            ..ctx.stake_info
        },
        ..ctx
    }
}

/// Taking an asset back: refused as `unstake_rejection` says, else with
/// the effect that `unstake_effect` gives.
pub open spec fn unstake_spec(ctx: UnStakeNft, proof_ok: bool) -> Result<UnStakeNft, StakeError> {
    match unstake_rejection(ctx, proof_ok) {
        Some(e) => Err(e),
        None => Ok(unstake_effect(ctx)),
    }
}

/// Takes an asset back, given the verdict `proof_ok` on its inclusion
/// proof. On success the caller has to return the asset from the vault to
/// `user_account` and remove the position record.
pub fn unstake_with_verdict(ctx: &mut UnStakeNft, proof_ok: bool) -> (result: Result<
    (),
    StakeError,
>)
    ensures
        follows(unstake_spec(*old(ctx), proof_ok), *old(ctx), *final(ctx), result),
        final(ctx).stake_user.reward_amount == old(ctx).stake_user.reward_amount,
{
    let position = match ctx.stake_info_account {
        Some(position) => position,
        None => {
            return Err(StakeError::UninitializedAccount);
        },
    };
    if ctx.nft_vault_owner != ctx.vault_auth {
        return Err(StakeError::WrongOwner);
    }
    if position.user_account != ctx.user_account {
        return Err(StakeError::WrongOwner);
    }
    if ctx.stake_user.user_account != ctx.user_account {
        return Err(StakeError::WrongOwner);
    }
    if !ctx.epoch_state.is_initial {
        return Err(StakeError::UninitializedAccount);
    }
    if !ctx.stake_info.is_initial {
        return Err(StakeError::UninitializedAccount);
    }
    if !ctx.merkle.is_init {
        return Err(StakeError::UninitializedAccount);
    }
    if !proof_ok {
        return Err(StakeError::InvalidProof);
    }
    let remain_reward = match ctx.epoch_state.remain_reward.checked_add(
        ctx.stake_user.pending_amount,
    ) {
        Some(sum) => sum,
        None => {
            return Err(StakeError::ArithmeticOverflow);
        },
    };
    let total_stakers = match ctx.stake_info.total_stakers.checked_sub(1) {
        Some(count) => count,
        None => {
            return Err(StakeError::ArithmeticOverflow);
        },
    };
    ctx.epoch_state.remain_reward = remain_reward;
    ctx.stake_user.pending_amount = 0;
    ctx.stake_info.total_stakers = total_stakers;
    ctx.stake_info_account = None;
    Ok(())
}

/// Takes an asset back. The proof is checked again against the published
/// root, with the asset's leaf; the rest is `unstake_with_verdict`.
pub fn process_unstake_nft(ctx: &mut UnStakeNft, proof: Vec<[u8; 32]>) -> (result: Result<
    (),
    StakeError,
>)
    ensures
        follows(
            unstake_spec(
                *old(ctx),
                proves(proof_view(proof@), old(ctx).merkle.root@, leaf_of(old(ctx).nft_mint@)),
            ),
            *old(ctx),
            *final(ctx),
            result,
        ),
{
    let node = leaf_hash(&ctx.nft_mint);
    let proof_ok = verify(proof, ctx.merkle.root, node);
    unstake_with_verdict(ctx, proof_ok)
}

} // verus!
