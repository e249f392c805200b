//! The sale of a collection of tokens: who may mint in which stage and at
//! what price, which identifier a token gets, and how the proceeds are split
//! between the project and the launchpad that runs the sale.
//!
//! [`Launchpad`] is the whole of it. Its operations take what the chain says
//! of a call as a [`CallContext`] and hand back what the world outside has to
//! do: [`Transfer`] notices of tokens to issue, or an amount to pay out.
//! [`Neurolauncher`] and [`ParasLaunchpadContract`] set up the two
//! collections that are sold this way. The module `laws` states what holds
//! of every launchpad whatever is asked of it.

pub mod account;
pub mod allowlist;
pub mod entropy;
pub mod launchpad;
pub mod laws;
pub mod ledger;
pub mod neurolauncher;
pub mod paras_launchpad;
pub mod pricing;
pub mod sale;
pub mod token_pool;
pub mod types;

pub use crate::account::AccountId;
pub use crate::launchpad::Launchpad;
pub use crate::neurolauncher::Neurolauncher;
pub use crate::paras_launchpad::ParasLaunchpadContract;
pub use crate::types::{
    Balance, CallContext, GatedPhase, MintingStatus, Percentage, Shiden34Error, Timestamp, Transfer,
};
