//! Contribution tracking and proportional reward distribution.
//!
//! Contributors submit contributions, an administrator reviews them, approved
//! points accumulate in time-boxed distribution periods, and each finalized
//! period's token budget is split among contributors in proportion to their
//! points. Every operation is a total function on plain records with a
//! contract that fixes its result and the records it leaves behind.

pub mod constants;
pub mod error;
pub mod state;
pub mod utils;
pub mod handlers;
pub mod conservation;
pub mod ledger;
