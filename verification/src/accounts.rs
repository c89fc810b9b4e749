//! The records and balances that each operation reads and writes.
//!
//! An operation is handed the current value of every record it touches and
//! leaves the new value in the same place. Balances of custody accounts
//! are read only: moving value is the caller's part.

use vstd::prelude::*;
use crate::state::{EpochState, Merkle, Pubkey, StakeInfoState, StakeNftInfoState, StakeUserState};

verus! {

/// Seeding the pool and starting epoch 1.
#[derive(Clone, Copy, Debug)]
pub struct Initialize {
    /// Balance of the funding account.
    pub bank_lamports: u64,
    pub epoch_state: EpochState,
    pub stake_info: StakeInfoState,
}

/// Registering a participant.
#[derive(Clone, Copy, Debug)]
pub struct StakeUser {
    /// The caller.
    pub user_account: Pubkey,
    /// The participant record to fill.
    pub stake_user: StakeUserState,
}

/// Depositing a bonus for the next epoch.
#[derive(Clone, Copy, Debug)]
pub struct EpochBonus {
    /// Balance of the account that pays the bonus.
    pub bonus_lamports: u64,
    pub epoch_state: EpochState,
}

/// Moving on to the next epoch.
#[derive(Clone, Copy, Debug)]
pub struct StartEpoch {
    /// Balance of the funding account.
    pub bank_lamports: u64,
    pub epoch_state: EpochState,
    pub stake_info: StakeInfoState,
}

/// Publishing the first allow-list root.
#[derive(Clone, Copy, Debug)]
pub struct InitializeMerkle {
    /// The caller, who becomes the administrator.
    pub admin_account: Pubkey,
    pub merkle: Merkle,
}

/// Replacing the allow-list root.
#[derive(Clone, Copy, Debug)]
pub struct UpdateMerkle {
    /// The caller.
    pub admin_account: Pubkey,
    pub merkle: Merkle,
}

/// Staking an asset.
#[derive(Clone, Copy, Debug)]
pub struct StakeNft {
    /// The caller, who owns the asset.
    pub user_account: Pubkey,
    /// The asset.
    pub nft_mint: Pubkey,
    /// The place of this asset's position record: `None` while the asset
    /// is not staked.
    pub stake_info_account: Option<StakeNftInfoState>,
    pub merkle: Merkle,
    pub stake_info: StakeInfoState,
}

/// Taking an asset back.
#[derive(Clone, Copy, Debug)]
pub struct UnStakeNft {
    /// The caller.
    pub user_account: Pubkey,
    /// The asset.
    pub nft_mint: Pubkey,
    /// Who controls the vault that holds the asset.
    pub nft_vault_owner: Pubkey,
    /// Who is expected to control it.
    pub vault_auth: Pubkey,
    /// The place of this asset's position record: `None` while the asset
    /// is not staked.
    pub stake_info_account: Option<StakeNftInfoState>,
    pub merkle: Merkle,
    /// The caller's participant record.
    pub stake_user: StakeUserState,
    pub epoch_state: EpochState,
    pub stake_info: StakeInfoState,
}

/// Paying out what a participant can withdraw.
#[derive(Clone, Copy, Debug)]
pub struct ClaimReward {
    /// The caller.
    pub user_account: Pubkey,
    /// Balance of the treasury.
    pub treasury_lamports: u64,
    pub stake_user: StakeUserState,
}

/// Accruing one day's reward for one position.
#[derive(Clone, Copy, Debug)]
pub struct DailyReward {
    pub stake_nft_info: StakeNftInfoState,
    pub stake_user_account: StakeUserState,
    pub stake_info: StakeInfoState,
    pub epoch_state: EpochState,
}

/// Advancing the shared day counter.
#[derive(Clone, Copy, Debug)]
pub struct UpdateDayEpoch {
    pub stake_info: StakeInfoState,
    pub epoch_state: EpochState,
}

/// Restarting the epoch cycle.
#[derive(Clone, Copy, Debug)]
pub struct RestartEpoch {
    /// Balance of the treasury.
    pub treasury_lamports: u64,
    pub epoch_state: EpochState,
    pub stake_info: StakeInfoState,
}

} // verus!
