//! The records of the staking pool and the constants of its calendar.

use vstd::prelude::*;
use vstd::std_specs::cmp::PartialEqSpecImpl;

verus! {

/// Share of the funding balance that goes to the treasury at an epoch
/// change, in percent.
pub const RATE_BANK_TO_TREASURY: u8 = 100;

/// Length of an epoch in seconds.
pub const DAYS_7_IN_SECONDS: u32 = 604800;

/// Length of an epoch in days.
pub const EPOCH_DAYS: u8 = 7;

/// Number of epochs in a full cycle.
pub const TOTAL_EPOCH: u8 = 52;

/// Length of a day in seconds.
pub const DAY_IN_SECONDS: i64 = 86400;

/// How long after a daily boundary the day counter may still be advanced,
/// in seconds.
pub const DAILY_WINDOW_SECONDS: i64 = 60;

/// A 32-byte account identity. Its view is the sequence of its bytes.
#[derive(Clone, Copy, Debug)]
pub struct Pubkey(pub [u8; 32]);

impl View for Pubkey {
    type V = Seq<u8>;

    open spec fn view(&self) -> Seq<u8> {
        self.0@
    }
}

/// Whether two 32-byte values hold the same bytes.
pub fn bytes_equal(a: &[u8; 32], b: &[u8; 32]) -> (same: bool)
    ensures
        same == (a@ == b@),
        same == (*a == *b),
{
    let mut i: usize = 0;
    while i < 32
        invariant
            i <= 32,
            forall|j: int| 0 <= j < i ==> a@[j] == b@[j],
        decreases 32 - i,
    {
        if a[i] != b[i] {
            return false;
        }
        i += 1;
    }
    assert(a@ =~= b@);
    assert(*a =~= *b);
    true
}

impl Pubkey {
    pub fn new_from_array(bytes: [u8; 32]) -> (key: Pubkey)
        ensures
            key == Pubkey(bytes),
            key@ == bytes@,
    {
        Pubkey(bytes)
    }

    pub fn to_bytes(&self) -> (bytes: [u8; 32])
        ensures
            bytes == self.0,
            bytes@ == self@,
    {
        self.0
    }
}

impl PartialEq for Pubkey {
    fn eq(&self, other: &Pubkey) -> (same: bool) {
        bytes_equal(&self.0, &other.0)
    }
}

impl PartialEqSpecImpl for Pubkey {
    open spec fn obeys_eq_spec() -> bool {
        true
    }

    open spec fn eq_spec(&self, other: &Pubkey) -> bool {
        *self == *other
    }
}

impl Eq for Pubkey {

}

/// Two identities are equal exactly when their bytes are.
pub proof fn lemma_pubkey_equal_by_view(a: Pubkey, b: Pubkey)
    ensures
        (a == b) <==> (a@ == b@),
{
    if a@ == b@ {
        assert(a.0 =~= b.0);
    }
}

/// The epoch singleton: which epoch runs, since when, and what it pays.
#[derive(Clone, Copy, Debug, PartialEq, Eq, Structural)]
pub struct EpochState {
    pub is_initial: bool,
    /// 0 before the pool is seeded, then 1 to 52; 53 once the cycle is over.
    pub epoch_no: u8,
    pub epoch_start_time: i64,
    pub cur_epoch_reward_per_day: u64,
    /// Bonus deposits waiting for the next epoch's pool.
    pub epoch_bonus: u64,
    /// Pending rewards of unstaked participants, carried to the next
    /// epoch's pool.
    pub remain_reward: u64,
}

impl EpochState {
    /// The epoch number is within the cycle, or one past its end.
    pub open spec fn wf(self) -> bool {
        self.epoch_no <= TOTAL_EPOCH + 1
    }
}

impl Default for EpochState {
    fn default() -> (state: EpochState)
        ensures
            state == (EpochState {
                is_initial: false,
                epoch_no: 0,
                epoch_start_time: 0,
                cur_epoch_reward_per_day: 0,
                epoch_bonus: 0,
                remain_reward: 0,
            }),
    {
        EpochState {
            is_initial: false,
            epoch_no: 0,
            epoch_start_time: 0,
            cur_epoch_reward_per_day: 0,
            epoch_bonus: 0,
            remain_reward: 0,
        }
    }
}

/// The ledger singleton: how many assets are staked, and the shared day
/// counter.
#[derive(Clone, Copy, Debug, PartialEq, Eq, Structural)]
pub struct StakeInfoState {
    pub is_initial: bool,
    pub total_stakers: u16,
    pub day_of_epoch: u8,
}

impl StakeInfoState {
    /// The day counter is a day of the week, 0 to 6.
    pub open spec fn wf(self) -> bool {
        self.day_of_epoch < EPOCH_DAYS
    }
}

/// One staked asset: who staked it, which asset, and when.
#[derive(Clone, Copy, Debug)]
pub struct StakeNftInfoState {
    pub user_account: Pubkey,
    pub nft_mint: Pubkey,
    pub stake_time: i64,
}

/// One participant: the reward that can be withdrawn, and the reward that
/// accrues during the running epoch.
#[derive(Clone, Copy, Debug)]
pub struct StakeUserState {
    pub is_initial: bool,
    pub user_account: Pubkey,
    pub reward_amount: u64,
    pub pending_amount: u64,
}

/// The allow list: the root that admits assets, and who may replace it.
#[derive(Clone, Copy, Debug)]
pub struct Merkle {
    /// The 256-bit Merkle root.
    pub root: [u8; 32],
    pub admin_account: Pubkey,
    pub is_init: bool,
}

impl Default for Merkle {
    fn default() -> (list: Merkle)
        ensures
            list.root@ == Seq::new(32, |i: int| 0u8),
            list.admin_account@ == Seq::new(32, |i: int| 0u8),
            !list.is_init,
    {
        let list = Merkle { root: [0u8; 32], admin_account: Pubkey([0u8; 32]), is_init: false };
        assert(list.root@ =~= Seq::new(32, |i: int| 0u8));
        assert(list.admin_account@ =~= Seq::new(32, |i: int| 0u8));
        list
    }
}

} // verus!
