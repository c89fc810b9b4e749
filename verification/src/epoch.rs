//! The epoch cycle: seeding the pool, collecting bonuses, moving on to
//! the next epoch, and starting over.
//!
//! Each operation checks everything it depends on before it writes
//! anything: on `Err` every record is as it was. What an operation does is
//! given by a spec function from the records before to the records after;
//! the executable function is proved to follow it.

use vstd::prelude::*;
use crate::accounts::{EpochBonus, Initialize, RestartEpoch, StartEpoch};
use crate::error::{follows, StakeError};
use crate::state::{
    EpochState, StakeInfoState, DAYS_7_IN_SECONDS, EPOCH_DAYS, RATE_BANK_TO_TREASURY, TOTAL_EPOCH,
};

verus! {

/// The reward pool of an epoch that starts with `bank` in the funding
/// account, `bonus` deposited and `remain` carried over.
pub open spec fn epoch_pool(bank: u64, bonus: u64, remain: u64) -> int {
    (bank + bonus + remain) * RATE_BANK_TO_TREASURY / 100
}

/// What a pool pays per day: a seventh, rounded down.
pub open spec fn reward_per_day(pool: int) -> int {
    pool / (EPOCH_DAYS as int)
}

/// A week of daily rewards never pays more than the pool it was cut from,
/// and what the rounding leaves in the pool is less than seven units.
pub proof fn lemma_reward_per_day_bounds(pool: int)
    requires
        0 <= pool,
    ensures
        0 <= reward_per_day(pool),
        reward_per_day(pool) * 7 <= pool,
        pool < reward_per_day(pool) * 7 + 7,
{
    assert(EPOCH_DAYS == 7);
}

/// Why the next epoch cannot start, if it cannot.
pub open spec fn start_epoch_rejection(ctx: StartEpoch, now: i64) -> Option<StakeError> {
    if ctx.bank_lamports == 0 {
        Some(StakeError::NoEnoughSol)
    } else if !ctx.epoch_state.is_initial || !ctx.stake_info.is_initial {
        Some(StakeError::UninitializedAccount)
    } else if ctx.epoch_state.epoch_no <= 1 {
        Some(StakeError::EpochWrongDays)
    } else if ctx.epoch_state.epoch_no > TOTAL_EPOCH {
        Some(StakeError::EpochEnd)
    } else if ctx.stake_info.day_of_epoch != 0 {
        Some(StakeError::EpochEnd)
    } else if ctx.epoch_state.epoch_start_time + DAYS_7_IN_SECONDS > i64::MAX {
        Some(StakeError::ArithmeticOverflow)
    } else if now > ctx.epoch_state.epoch_start_time + DAYS_7_IN_SECONDS {
        Some(StakeError::EpochWrongDays)
    } else if (ctx.bank_lamports + ctx.epoch_state.epoch_bonus + ctx.epoch_state.remain_reward)
        * RATE_BANK_TO_TREASURY > u64::MAX {
        Some(StakeError::ArithmeticOverflow)
    } else {
        None
    }
}

/// The records after the next epoch has started.
pub open spec fn start_epoch_effect(ctx: StartEpoch) -> StartEpoch {
    let pool = epoch_pool(
        ctx.bank_lamports,
        ctx.epoch_state.epoch_bonus,
        ctx.epoch_state.remain_reward,
    );
    StartEpoch {
        epoch_state: EpochState {
            epoch_no: (ctx.epoch_state.epoch_no + 1) as u8,
            epoch_start_time: (ctx.epoch_state.epoch_start_time + DAYS_7_IN_SECONDS) as i64,
            cur_epoch_reward_per_day: reward_per_day(pool) as u64,
            epoch_bonus: 0,
            remain_reward: 0,
            ..ctx.epoch_state
        },
        ..ctx
    }
}

/// Starting the next epoch: refused as `start_epoch_rejection` says, else
/// with the effect that `start_epoch_effect` gives.
pub open spec fn start_epoch_spec(ctx: StartEpoch, now: i64) -> Result<StartEpoch, StakeError> {
    match start_epoch_rejection(ctx, now) {
        Some(e) => Err(e),
        None => Ok(start_epoch_effect(ctx)),
    }
}

/// Starts the next epoch at clock reading `now`.
///
/// On success the epoch number is one higher, the epoch starts seven days
/// after the previous one, the bonus and the carried remainder are used up,
/// and the result is the pool that the caller has to move from the funding
/// account to the treasury. The daily reward is a seventh of that pool,
/// rounded down: what the rounding drops is less than seven units.
pub fn process_start_epoch(ctx: &mut StartEpoch, now: i64) -> (result: Result<u64, StakeError>)
    ensures
        follows(start_epoch_spec(*old(ctx), now), *old(ctx), *final(ctx), result),
        result matches Ok(pool) ==> {
            &&& pool == epoch_pool(
                old(ctx).bank_lamports,
                old(ctx).epoch_state.epoch_bonus,
                old(ctx).epoch_state.remain_reward,
            )
            &&& final(ctx).epoch_state.cur_epoch_reward_per_day * 7 <= pool
            &&& pool < final(ctx).epoch_state.cur_epoch_reward_per_day * 7 + 7
        },
        old(ctx).epoch_state.wf() ==> final(ctx).epoch_state.wf(),
{
    if ctx.bank_lamports == 0 {
        return Err(StakeError::NoEnoughSol);
    }
    if !ctx.epoch_state.is_initial {
        return Err(StakeError::UninitializedAccount);
    }
    if !ctx.stake_info.is_initial {
        return Err(StakeError::UninitializedAccount);
    }
    if ctx.epoch_state.epoch_no <= 1 {
        return Err(StakeError::EpochWrongDays);
    }
    if ctx.epoch_state.epoch_no > TOTAL_EPOCH {
        return Err(StakeError::EpochEnd);
    }
    if ctx.stake_info.day_of_epoch != 0 {
        return Err(StakeError::EpochEnd);
    }
    let window_end = match ctx.epoch_state.epoch_start_time.checked_add(DAYS_7_IN_SECONDS as i64) {
        Some(t) => t,
        None => {
            return Err(StakeError::ArithmeticOverflow);
        },
    };
    if now > window_end {
        return Err(StakeError::EpochWrongDays);
    }
    let bank_amount = ctx.bank_lamports;
    let funded = match bank_amount.checked_add(ctx.epoch_state.epoch_bonus) {
        Some(sum) => sum.checked_add(ctx.epoch_state.remain_reward),
        None => None,
    };
    let scaled = match funded {
        Some(sum) => sum.checked_mul(RATE_BANK_TO_TREASURY as u64),
        None => None,
    };
    let send_amount = match scaled {
        Some(product) => product / 100,
        None => {
            return Err(StakeError::ArithmeticOverflow);
        },
    };
    proof {
        lemma_reward_per_day_bounds(send_amount as int);
    }
    ctx.epoch_state.epoch_no = ctx.epoch_state.epoch_no + 1;
    ctx.epoch_state.epoch_start_time = window_end;
    ctx.epoch_state.cur_epoch_reward_per_day = send_amount / (EPOCH_DAYS as u64);
    ctx.epoch_state.epoch_bonus = 0;
    ctx.epoch_state.remain_reward = 0;
    Ok(send_amount)
}

/// Why the pool cannot be seeded, if it cannot.
pub open spec fn initialize_rejection(ctx: Initialize, amount: u64) -> Option<StakeError> {
    if ctx.epoch_state.epoch_no >= 1 {
        Some(StakeError::EpochAlreadyStarted)
    } else if ctx.epoch_state.is_initial || ctx.stake_info.is_initial {
        Some(StakeError::AccountAlreadyInitialized)
    } else if ctx.bank_lamports < amount {
        Some(StakeError::NoEnoughSol)
    } else {
        None
    }
}

/// The records after the pool has been seeded with `amount` at `now`.
pub open spec fn initialize_effect(ctx: Initialize, amount: u64, now: i64) -> Initialize {
    Initialize {
        epoch_state: EpochState {
            is_initial: true,
            epoch_no: 1,
            epoch_start_time: now,
            cur_epoch_reward_per_day: reward_per_day(amount as int) as u64,
            epoch_bonus: 0,
            remain_reward: 0,
        },
        stake_info: StakeInfoState { is_initial: true, day_of_epoch: 0, ..ctx.stake_info },
        ..ctx
    }
}

/// Seeding the pool: refused as `initialize_rejection` says, else with the
/// effect that `initialize_effect` gives.
pub open spec fn initialize_spec(ctx: Initialize, amount: u64, now: i64) -> Result<
    Initialize,
    StakeError,
> {
    match initialize_rejection(ctx, amount) {
        Some(e) => Err(e),
        None => Ok(initialize_effect(ctx, amount, now)),
    }
}

/// Seeds the pool with `amount` and starts epoch 1 at clock reading `now`.
/// On success the caller has to move `amount` from the funding account to
/// the treasury.
pub fn process_initialize(ctx: &mut Initialize, amount: u64, now: i64) -> (result: Result<
    (),
    StakeError,
>)
    ensures
        follows(initialize_spec(*old(ctx), amount, now), *old(ctx), *final(ctx), result),
        result is Ok ==> {
            &&& final(ctx).epoch_state.cur_epoch_reward_per_day * 7 <= amount
            &&& amount < final(ctx).epoch_state.cur_epoch_reward_per_day * 7 + 7
        },
        old(ctx).epoch_state.wf() ==> final(ctx).epoch_state.wf(),
        old(ctx).stake_info.wf() ==> final(ctx).stake_info.wf(),
{
    if ctx.epoch_state.epoch_no >= 1 {
        return Err(StakeError::EpochAlreadyStarted);
    }
    if ctx.epoch_state.is_initial {
        return Err(StakeError::AccountAlreadyInitialized);
    }
    if ctx.stake_info.is_initial {
        return Err(StakeError::AccountAlreadyInitialized);
    }
    if ctx.bank_lamports < amount {
        return Err(StakeError::NoEnoughSol);
    }
    let per_day = amount / (EPOCH_DAYS as u64);
    proof {
        lemma_reward_per_day_bounds(amount as int);
    }
    ctx.epoch_state.is_initial = true;
    ctx.epoch_state.epoch_no = 1;
    ctx.epoch_state.epoch_start_time = now;
    ctx.epoch_state.cur_epoch_reward_per_day = per_day;
    ctx.epoch_state.epoch_bonus = 0;
    ctx.epoch_state.remain_reward = 0;
    ctx.stake_info.is_initial = true;
    ctx.stake_info.day_of_epoch = 0;
    Ok(())
}

/// Why a bonus cannot be deposited, if it cannot.
pub open spec fn send_epoch_bonus_rejection(ctx: EpochBonus, amount: u64) -> Option<StakeError> {
    if ctx.bonus_lamports < amount {
        Some(StakeError::NoEnoughSol)
    } else if !ctx.epoch_state.is_initial {
        Some(StakeError::UninitializedAccount)
    } else if ctx.epoch_state.epoch_no > TOTAL_EPOCH {
        Some(StakeError::EpochEnd)
    } else if ctx.epoch_state.epoch_bonus + amount > u64::MAX {
        Some(StakeError::ArithmeticOverflow)
    } else {
        None
    }
}

/// The records after a bonus of `amount` has been deposited.
pub open spec fn send_epoch_bonus_effect(ctx: EpochBonus, amount: u64) -> EpochBonus {
    EpochBonus {
        epoch_state: EpochState {
            epoch_bonus: (ctx.epoch_state.epoch_bonus + amount) as u64,
            ..ctx.epoch_state
        },
        ..ctx
    }
}

/// Depositing a bonus: refused as `send_epoch_bonus_rejection` says, else
/// with the effect that `send_epoch_bonus_effect` gives.
pub open spec fn send_epoch_bonus_spec(ctx: EpochBonus, amount: u64) -> Result<
    EpochBonus,
    StakeError,
> {
    match send_epoch_bonus_rejection(ctx, amount) {
        Some(e) => Err(e),
        None => Ok(send_epoch_bonus_effect(ctx, amount)),
    }
}

/// Adds `amount` to the bonus of the next epoch. On success the caller has
/// to move `amount` from the paying account to the treasury.
pub fn process_send_epoch_bonus(ctx: &mut EpochBonus, amount: u64) -> (result: Result<
    (),
    StakeError,
>)
    ensures
        follows(send_epoch_bonus_spec(*old(ctx), amount), *old(ctx), *final(ctx), result),
{
    if ctx.bonus_lamports < amount {
        return Err(StakeError::NoEnoughSol);
    }
    if !ctx.epoch_state.is_initial {
        return Err(StakeError::UninitializedAccount);
    }
    if ctx.epoch_state.epoch_no > TOTAL_EPOCH {
        return Err(StakeError::EpochEnd);
    }
    let epoch_bonus = match ctx.epoch_state.epoch_bonus.checked_add(amount) {
        Some(sum) => sum,
        None => {
            return Err(StakeError::ArithmeticOverflow);
        },
    };
    ctx.epoch_state.epoch_bonus = epoch_bonus;
    Ok(())
}

/// The records after the epoch cycle has been restarted at `now`.
pub open spec fn restart_epoch_effect(ctx: RestartEpoch, now: i64) -> RestartEpoch {
    RestartEpoch {
        epoch_state: EpochState {
            is_initial: true,
            epoch_no: 1,
            epoch_start_time: now,
            cur_epoch_reward_per_day: reward_per_day(ctx.treasury_lamports as int) as u64,
            epoch_bonus: 0,
            ..ctx.epoch_state
        },
        stake_info: StakeInfoState { is_initial: true, day_of_epoch: 0, ..ctx.stake_info },
        ..ctx
    }
}

/// Restarts the epoch cycle at clock reading `now`, whatever state it is
/// in: epoch 1 begins, its daily reward is a seventh of the treasury's
/// balance, the bonus is dropped and the day counter is back at 0. The
/// carried remainder and the number of staked assets stay.
pub fn process_restart_epoch(ctx: &mut RestartEpoch, now: i64) -> (result: Result<
    (),
    StakeError,
>)
    ensures
        result is Ok,
        *final(ctx) == restart_epoch_effect(*old(ctx), now),
        final(ctx).epoch_state.cur_epoch_reward_per_day * 7 <= old(ctx).treasury_lamports,
        old(ctx).treasury_lamports < final(ctx).epoch_state.cur_epoch_reward_per_day * 7 + 7,
        final(ctx).epoch_state.wf(),
        final(ctx).stake_info.wf(),
{
    let amount = ctx.treasury_lamports;
    let per_day = amount / (EPOCH_DAYS as u64);
    proof {
        lemma_reward_per_day_bounds(amount as int);
    }
    ctx.epoch_state.is_initial = true;
    ctx.epoch_state.epoch_no = 1;
    ctx.epoch_state.epoch_start_time = now;
    ctx.epoch_state.cur_epoch_reward_per_day = per_day;
    ctx.epoch_state.epoch_bonus = 0;
    ctx.stake_info.is_initial = true;
    ctx.stake_info.day_of_epoch = 0;
    Ok(())
}

} // verus!
