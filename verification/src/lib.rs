//! Verified core of an NFT staking pool: epoch and reward accounting, the
//! Merkle allow-list gate, and the per-participant and per-position records.
//!
//! The operations work on plain records. Moving value between custody
//! accounts, reading the clock and keeping the records is the caller's
//! part: an operation is handed balances and the clock reading as values,
//! and says in its result what has to be moved.

pub mod accounts;
pub mod allow_list;
pub mod epoch;
pub mod error;
pub mod ledger;
pub mod merkle_proof;
pub mod merkle_tree;
pub mod rewards;
pub mod staking;
pub mod state;

pub use accounts::{
    ClaimReward, DailyReward, EpochBonus, Initialize, InitializeMerkle, RestartEpoch, StakeNft,
    StakeUser, StartEpoch, UnStakeNft, UpdateDayEpoch, UpdateMerkle,
};
pub use allow_list::{process_initialize_merkle, update_merkle};
pub use epoch::{
    process_initialize, process_restart_epoch, process_send_epoch_bonus, process_start_epoch,
};
pub use error::StakeError;
pub use rewards::{process_claim_reward, process_daily_reward, process_update_day_of_epoch};
pub use staking::{
    process_initialize_user, process_stake_nft, process_unstake_nft, stake_with_verdict,
    unstake_with_verdict,
};
pub use state::{
    EpochState, Merkle, Pubkey, StakeInfoState, StakeNftInfoState, StakeUserState,
};
