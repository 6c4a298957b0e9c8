//! A per-user staking ledger.
//!
//! A [`StakingAccount`] records how much one owner has staked and how much
//! reward has accrued on that stake. Reward accrues linearly in the staked
//! amount and in elapsed time, at five percent simple interest a year, and is
//! always brought up to date before an operation changes anything else.
//!
//! Every executable function in this crate is verified against the contract
//! written on it; the contracts speak of the plain field values of the record
//! and of the two balances in [`Funds`].

pub mod account;
pub mod error;
pub mod funds;
pub mod identity;
pub mod laws;
pub mod operations;

pub use account::{update_rewards, StakingAccount};
pub use error::StakingError;
pub use funds::Funds;
pub use identity::Identity;
pub use operations::{claim_reward, compound, initialize, stake, unstake};
