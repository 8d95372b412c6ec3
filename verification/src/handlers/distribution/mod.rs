pub mod claim;
pub mod process_period;
pub mod transfer;

pub use claim::{claim_rewards, claimable_reward, ClaimRewardsAccountConstraints};
pub use process_period::{
    planned_distribution, process_period_distribution, ProcessPeriodDistributionAccountConstraints,
};
pub use transfer::TransferOutcome;
