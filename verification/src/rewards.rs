//! Rewards: the shared day counter, the daily accrual per position, and
//! the payout.

use vstd::prelude::*;
use crate::accounts::{ClaimReward, DailyReward, UpdateDayEpoch};
use crate::error::{follows, StakeError};
use crate::state::{
    StakeInfoState, StakeUserState, DAILY_WINDOW_SECONDS, DAY_IN_SECONDS, EPOCH_DAYS, TOTAL_EPOCH,
};

verus! {

/// The seconds that `elapsed` reaches into a day: its remainder by the
/// length of a day, with the sign of `elapsed`.
pub open spec fn seconds_into_day(elapsed: int) -> int {
    if elapsed >= 0 {
        elapsed % (DAY_IN_SECONDS as int)
    } else {
        -((-elapsed) % (DAY_IN_SECONDS as int))
    }
}

/// The day after `day` in the seven-day cycle.
pub open spec fn next_day(day: u8) -> int {
    (day + 1) % (EPOCH_DAYS as int)
}

/// Why the day counter cannot be advanced, if it cannot.
pub open spec fn update_day_rejection(ctx: UpdateDayEpoch, now: i64) -> Option<StakeError> {
    if ctx.stake_info.day_of_epoch > EPOCH_DAYS {
        Some(StakeError::WrongEpochDay)
    } else if !ctx.epoch_state.is_initial || !ctx.stake_info.is_initial {
        Some(StakeError::UninitializedAccount)
    } else if ctx.epoch_state.epoch_no > TOTAL_EPOCH {
        Some(StakeError::EpochEnd)
    } else if !(i64::MIN <= now - ctx.epoch_state.epoch_start_time <= i64::MAX) {
        Some(StakeError::ArithmeticOverflow)
    } else if seconds_into_day(now - ctx.epoch_state.epoch_start_time) > DAILY_WINDOW_SECONDS {
        Some(StakeError::NoDaily)
    } else {
        None
    }
}

/// The records after the day counter has been advanced.
pub open spec fn update_day_effect(ctx: UpdateDayEpoch) -> UpdateDayEpoch {
    UpdateDayEpoch {
        stake_info: StakeInfoState {
            day_of_epoch: next_day(ctx.stake_info.day_of_epoch) as u8,
            ..ctx.stake_info
        },
        ..ctx
    }
}

/// Advancing the day counter: refused as `update_day_rejection` says, else
/// with the effect that `update_day_effect` gives.
pub open spec fn update_day_spec(ctx: UpdateDayEpoch, now: i64) -> Result<
    UpdateDayEpoch,
    StakeError,
> {
    match update_day_rejection(ctx, now) {
        Some(e) => Err(e),
        None => Ok(update_day_effect(ctx)),
    }
}

/// Advances the shared day counter at clock reading `now`. The clock must
/// stand within a minute after a daily boundary of the epoch; a reading
/// before the epoch's start is taken as within it.
pub fn process_update_day_of_epoch(ctx: &mut UpdateDayEpoch, now: i64) -> (result: Result<
    (),
    StakeError,
>)
    ensures
        follows(update_day_spec(*old(ctx), now), *old(ctx), *final(ctx), result),
        result is Ok ==> final(ctx).stake_info.wf(),
{
    if ctx.stake_info.day_of_epoch > EPOCH_DAYS {
        return Err(StakeError::WrongEpochDay);
    }
    if !ctx.epoch_state.is_initial {
        return Err(StakeError::UninitializedAccount);
    }
    if !ctx.stake_info.is_initial {
        return Err(StakeError::UninitializedAccount);
    }
    if ctx.epoch_state.epoch_no > TOTAL_EPOCH {
        return Err(StakeError::EpochEnd);
    }
    let elapsed = match now.checked_sub(ctx.epoch_state.epoch_start_time) {
        Some(difference) => difference,
        None => {
            return Err(StakeError::ArithmeticOverflow);
        },
    };
    if elapsed > 0 && elapsed % DAY_IN_SECONDS > DAILY_WINDOW_SECONDS {
        return Err(StakeError::NoDaily);
    }
    ctx.stake_info.day_of_epoch = (ctx.stake_info.day_of_epoch + 1) % EPOCH_DAYS;
    Ok(())
}

/// What one staked asset earns on a day on which `reward_per_day` is shared
/// among `total_stakers` assets: an equal share, rounded down.
pub open spec fn reward_per_nft(reward_per_day: u64, total_stakers: u16) -> int
    recommends
        total_stakers > 0,
{
    reward_per_day as int / total_stakers as int
}

/// Why a day's reward cannot be accrued, if it cannot.
pub open spec fn daily_reward_rejection(ctx: DailyReward) -> Option<StakeError> {
    if ctx.stake_info.day_of_epoch > EPOCH_DAYS {
        Some(StakeError::WrongEpochDay)
    } else if !ctx.epoch_state.is_initial || !ctx.stake_info.is_initial {
        Some(StakeError::UninitializedAccount)
    } else if ctx.epoch_state.epoch_no > TOTAL_EPOCH {
        Some(StakeError::EpochEnd)
    } else if ctx.stake_info.total_stakers == 0 {
        None
    } else if ctx.stake_nft_info.user_account != ctx.stake_user_account.user_account {
        Some(StakeError::WrongOwner)
    } else if ctx.stake_info.day_of_epoch == 0 {
        if ctx.stake_user_account.reward_amount + ctx.stake_user_account.pending_amount
            > u64::MAX {
            Some(StakeError::ArithmeticOverflow)
        } else {
            None
        }
    } else if ctx.stake_user_account.pending_amount + reward_per_nft(
        ctx.epoch_state.cur_epoch_reward_per_day,
        ctx.stake_info.total_stakers,
    ) > u64::MAX {
        Some(StakeError::ArithmeticOverflow)
    } else {
        None
    }
}

/// The participant after a day's reward for one position. With nothing
/// staked nothing changes. On the first day of an epoch what was pending
/// becomes claimable; on every other day the position's share of the daily
/// reward is added to what is pending.
pub open spec fn daily_reward_effect(ctx: DailyReward) -> DailyReward {
    let user = ctx.stake_user_account;
    if ctx.stake_info.total_stakers == 0 {
        ctx
    } else if ctx.stake_info.day_of_epoch == 0 {
        DailyReward {
            stake_user_account: StakeUserState {
                reward_amount: (user.reward_amount + user.pending_amount) as u64,
                pending_amount: 0,
                ..user
            },
            ..ctx
        }
    } else {
        DailyReward {
            stake_user_account: StakeUserState {
                pending_amount: (user.pending_amount + reward_per_nft(
                    ctx.epoch_state.cur_epoch_reward_per_day,
                    ctx.stake_info.total_stakers,
                )) as u64,
                ..user
            },
            ..ctx
        }
    }
}

/// Accruing a day's reward: refused as `daily_reward_rejection` says, else
/// with the effect that `daily_reward_effect` gives.
pub open spec fn daily_reward_spec(ctx: DailyReward) -> Result<DailyReward, StakeError> {
    match daily_reward_rejection(ctx) {
        Some(e) => Err(e),
        None => Ok(daily_reward_effect(ctx)),
    }
}

/// Accrues one day's reward for one position to its participant. It keeps
/// no record of the day it ran for: calling it once per position and day
/// is the caller's part.
pub fn process_daily_reward(ctx: &mut DailyReward) -> (result: Result<(), StakeError>)
    ensures
        follows(daily_reward_spec(*old(ctx)), *old(ctx), *final(ctx), result),
        final(ctx).stake_user_account.reward_amount >= old(ctx).stake_user_account.reward_amount,
        old(ctx).stake_info.total_stakers == 0 ==> *final(ctx) == *old(ctx),
{
    if ctx.stake_info.day_of_epoch > EPOCH_DAYS {
        return Err(StakeError::WrongEpochDay);
    }
    if !ctx.epoch_state.is_initial {
        return Err(StakeError::UninitializedAccount);
    }
    if !ctx.stake_info.is_initial {
        return Err(StakeError::UninitializedAccount);
    }
    if ctx.epoch_state.epoch_no > TOTAL_EPOCH {
        return Err(StakeError::EpochEnd);
    }
    if ctx.stake_info.total_stakers > 0 {
        let share = ctx.epoch_state.cur_epoch_reward_per_day / (ctx.stake_info.total_stakers
            as u64);
        if ctx.stake_nft_info.user_account != ctx.stake_user_account.user_account {
            return Err(StakeError::WrongOwner);
        }
        if ctx.stake_info.day_of_epoch == 0 {
            let reward_amount = match ctx.stake_user_account.reward_amount.checked_add(
                ctx.stake_user_account.pending_amount,
            ) {
                Some(sum) => sum,
                None => {
                    return Err(StakeError::ArithmeticOverflow);
                },
            };
            ctx.stake_user_account.reward_amount = reward_amount;
            ctx.stake_user_account.pending_amount = 0;
        } else {
            let pending_amount = match ctx.stake_user_account.pending_amount.checked_add(share) {
                Some(sum) => sum,
                None => {
                    return Err(StakeError::ArithmeticOverflow);
                },
            };
            ctx.stake_user_account.pending_amount = pending_amount;
        }
    }
    Ok(())
}

/// Why a reward cannot be paid out, if it cannot.
pub open spec fn claim_reward_rejection(ctx: ClaimReward) -> Option<StakeError> {
    if ctx.stake_user.user_account != ctx.user_account {
        Some(StakeError::WrongOwner)
    } else if ctx.treasury_lamports < claim_payout(ctx) {
        Some(StakeError::InsufficientTreasury)
    } else {
        None
    }
}

/// What a successful claim pays out: the whole claimable reward.
pub open spec fn claim_payout(ctx: ClaimReward) -> u64 {
    ctx.stake_user.reward_amount
}

/// The records after the claimable reward has been paid out: it has gone
/// down by what was paid.
pub open spec fn claim_reward_effect(ctx: ClaimReward) -> ClaimReward {
    ClaimReward {
        stake_user: StakeUserState {
            reward_amount: (ctx.stake_user.reward_amount - claim_payout(ctx)) as u64,
            ..ctx.stake_user
        },
        ..ctx
    }
}

/// Paying out a reward: refused as `claim_reward_rejection` says, else
/// with the effect that `claim_reward_effect` gives.
pub open spec fn claim_reward_spec(ctx: ClaimReward) -> Result<ClaimReward, StakeError> {
    match claim_reward_rejection(ctx) {
        Some(e) => Err(e),
        None => Ok(claim_reward_effect(ctx)),
    }
}

/// Pays out what the participant can withdraw. The result is the amount
/// that the caller has to move from the treasury to `user_account`; it is
/// the whole claimable reward, and the claimable reward goes down by
/// exactly that amount. With nothing to claim the result is 0 and nothing
/// has to be moved.
pub fn process_claim_reward(ctx: &mut ClaimReward) -> (result: Result<u64, StakeError>)
    ensures
        follows(claim_reward_spec(*old(ctx)), *old(ctx), *final(ctx), result),
        result matches Ok(paid) ==> {
            &&& paid == claim_payout(*old(ctx))
            &&& final(ctx).stake_user.reward_amount == old(ctx).stake_user.reward_amount - paid
        },
{
    if ctx.stake_user.user_account != ctx.user_account {
        return Err(StakeError::WrongOwner);
    }
    let claim_amount = ctx.stake_user.reward_amount;
    if claim_amount > 0 {
        if ctx.treasury_lamports < claim_amount {
            return Err(StakeError::InsufficientTreasury);
        }
        ctx.stake_user.reward_amount = ctx.stake_user.reward_amount - claim_amount;
    }
    Ok(claim_amount)
}

} // verus!
