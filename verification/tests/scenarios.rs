use token_stake_model::merkle_proof::{hash_pair, leaf_hash};
use token_stake_model::{
    process_claim_reward, process_daily_reward, process_initialize, process_initialize_merkle,
    process_initialize_user, process_restart_epoch, process_stake_nft,
    process_update_day_of_epoch, ClaimReward, DailyReward, EpochState, Initialize,
    InitializeMerkle, Merkle, Pubkey, RestartEpoch, StakeError, StakeInfoState, StakeNft,
    StakeNftInfoState, StakeUser, StakeUserState, UpdateDayEpoch,
};

const T0: i64 = 1_650_000_000;
const DAY: i64 = 86_400;

fn key(n: u8) -> Pubkey {
    Pubkey([n; 32])
}

/// Everything that is stored for a pool with two participants, each with
/// one asset.
struct Pool {
    epoch_state: EpochState,
    stake_info: StakeInfoState,
    merkle: Merkle,
    users: [StakeUserState; 2],
    positions: [Option<StakeNftInfoState>; 2],
}

fn owners() -> [Pubkey; 2] {
    [key(1), key(2)]
}

fn assets() -> [Pubkey; 2] {
    [key(11), key(12)]
}

fn proofs() -> [Vec<[u8; 32]>; 2] {
    [vec![leaf_hash(&key(12))], vec![leaf_hash(&key(11))]]
}

fn seeded_pool(seed_amount: u64) -> Pool {
    let mut init = Initialize {
        bank_lamports: seed_amount,
        epoch_state: EpochState::default(),
        stake_info: StakeInfoState { is_initial: false, total_stakers: 0, day_of_epoch: 0 },
    };
    assert_eq!(process_initialize(&mut init, seed_amount, T0), Ok(()));

    let mut list = InitializeMerkle { admin_account: key(200), merkle: Merkle::default() };
    let root = hash_pair(&leaf_hash(&key(11)), &leaf_hash(&key(12)));
    assert_eq!(process_initialize_merkle(&mut list, root), Ok(()));

    let blank =
        StakeUserState { is_initial: false, user_account: key(0), reward_amount: 0, pending_amount: 0 };
    let mut users = [blank, blank];
    for i in 0..2 {
        let mut ctx = StakeUser { user_account: owners()[i], stake_user: blank };
        assert_eq!(process_initialize_user(&mut ctx), Ok(()));
        users[i] = ctx.stake_user;
    }
    Pool {
        epoch_state: init.epoch_state,
        stake_info: init.stake_info,
        merkle: list.merkle,
        users,
        positions: [None, None],
    }
}

fn stake(pool: &mut Pool, i: usize, now: i64) -> Result<(), StakeError> {
    let mut ctx = StakeNft {
        user_account: owners()[i],
        nft_mint: assets()[i],
        stake_info_account: pool.positions[i],
        merkle: pool.merkle,
        stake_info: pool.stake_info,
    };
    let result = process_stake_nft(&mut ctx, proofs()[i].clone(), now);
    pool.positions[i] = ctx.stake_info_account;
    pool.stake_info = ctx.stake_info;
    result
}

fn tick(pool: &mut Pool, i: usize) -> Result<(), StakeError> {
    let mut ctx = DailyReward {
        stake_nft_info: pool.positions[i].unwrap(),
        stake_user_account: pool.users[i],
        stake_info: pool.stake_info,
        epoch_state: pool.epoch_state,
    };
    let result = process_daily_reward(&mut ctx);
    pool.users[i] = ctx.stake_user_account;
    result
}

fn advance_day(pool: &mut Pool, now: i64) -> Result<(), StakeError> {
    let mut ctx = UpdateDayEpoch { stake_info: pool.stake_info, epoch_state: pool.epoch_state };
    let result = process_update_day_of_epoch(&mut ctx, now);
    pool.stake_info = ctx.stake_info;
    result
}

#[test]
fn two_stakers_share_the_daily_reward() {
    let mut pool = seeded_pool(700);
    assert_eq!(pool.epoch_state.cur_epoch_reward_per_day, 100);
    assert_eq!(pool.epoch_state.epoch_no, 1);

    assert_eq!(stake(&mut pool, 0, T0 + 10), Ok(()));
    assert_eq!(stake(&mut pool, 1, T0 + 20), Ok(()));
    assert_eq!(pool.stake_info.total_stakers, 2);

    assert_eq!(pool.stake_info.day_of_epoch, 0);
    for i in 0..2 {
        assert_eq!(tick(&mut pool, i), Ok(()));
        assert_eq!(pool.users[i].pending_amount, 0);
        assert_eq!(pool.users[i].reward_amount, 0);
    }

    assert_eq!(advance_day(&mut pool, T0 + DAY), Ok(()));
    assert_eq!(pool.stake_info.day_of_epoch, 1);
    for i in 0..2 {
        assert_eq!(tick(&mut pool, i), Ok(()));
        assert_eq!(pool.users[i].pending_amount, 50);
        assert_eq!(pool.users[i].reward_amount, 0);
    }
}

#[test]
fn a_week_of_rewards_becomes_claimable_on_the_first_day() {
    let mut pool = seeded_pool(700);
    assert_eq!(stake(&mut pool, 0, T0), Ok(()));
    assert_eq!(stake(&mut pool, 1, T0), Ok(()));
    for day in 1..=7 {
        assert_eq!(advance_day(&mut pool, T0 + day * DAY + 30), Ok(()));
        for i in 0..2 {
            assert_eq!(tick(&mut pool, i), Ok(()));
        }
    }
    assert_eq!(pool.stake_info.day_of_epoch, 0);
    for i in 0..2 {
        assert_eq!(pool.users[i].reward_amount, 300);
        assert_eq!(pool.users[i].pending_amount, 0);
    }
    let mut ctx = ClaimReward {
        user_account: owners()[0],
        treasury_lamports: 700,
        stake_user: pool.users[0],
    };
    assert_eq!(process_claim_reward(&mut ctx), Ok(300));
    assert_eq!(ctx.stake_user.reward_amount, 0);
}

#[test]
fn second_advance_near_the_same_boundary_is_outside_the_window() {
    let mut pool = seeded_pool(700);
    assert_eq!(advance_day(&mut pool, T0 + DAY + 50), Ok(()));
    assert_eq!(pool.stake_info.day_of_epoch, 1);
    assert_eq!(advance_day(&mut pool, T0 + DAY + 70), Err(StakeError::NoDaily));
    assert_eq!(pool.stake_info.day_of_epoch, 1);
}

#[test]
fn restart_at_the_end_of_the_cycle() {
    let ended = EpochState {
        is_initial: true,
        epoch_no: 53,
        epoch_start_time: T0,
        cur_epoch_reward_per_day: 9,
        epoch_bonus: 4,
        remain_reward: 0,
    };
    let mut ctx = RestartEpoch {
        treasury_lamports: 7_006,
        epoch_state: ended,
        stake_info: StakeInfoState { is_initial: true, total_stakers: 5, day_of_epoch: 3 },
    };
    assert_eq!(process_restart_epoch(&mut ctx, T0 + 53 * 7 * DAY), Ok(()));
    assert_eq!(ctx.epoch_state.epoch_no, 1);
    assert_eq!(ctx.epoch_state.cur_epoch_reward_per_day, 7_006 / 7);
    assert_eq!(ctx.epoch_state.cur_epoch_reward_per_day, 1_000);
    assert_eq!(ctx.epoch_state.epoch_start_time, T0 + 53 * 7 * DAY);
    assert_eq!(ctx.epoch_state.epoch_bonus, 0);
    assert_eq!(ctx.stake_info.day_of_epoch, 0);
    assert_eq!(ctx.stake_info.total_stakers, 5);
}

#[test]
fn tick_without_stakers_is_a_silent_no_op() {
    let pool = seeded_pool(700);
    assert_eq!(pool.stake_info.total_stakers, 0);
    let user = StakeUserState { reward_amount: 21, pending_amount: 8, ..pool.users[0] };
    let mut ctx = DailyReward {
        stake_nft_info: StakeNftInfoState {
            user_account: owners()[0],
            nft_mint: assets()[0],
            stake_time: T0,
        },
        stake_user_account: user,
        stake_info: pool.stake_info,
        epoch_state: pool.epoch_state,
    };
    assert_eq!(process_daily_reward(&mut ctx), Ok(()));
    assert_eq!(ctx.stake_user_account.reward_amount, 21);
    assert_eq!(ctx.stake_user_account.pending_amount, 8);
    assert_eq!(ctx.stake_info, pool.stake_info);
    assert_eq!(ctx.epoch_state, pool.epoch_state);
    ctx.stake_info.day_of_epoch = 3;
    assert_eq!(process_daily_reward(&mut ctx), Ok(()));
    assert_eq!(ctx.stake_user_account.reward_amount, 21);
    assert_eq!(ctx.stake_user_account.pending_amount, 8);
}
