//! Epoch-gated cranking of a stake pool: configuration parsing, the
//! persisted record of the last cranked epoch, the per-tick decisions of the
//! scheduler, the two-step crank cycle of each pool family, and the retry
//! policy of transaction submission.
pub mod error;
pub mod text;
pub mod config;
pub mod epoch_state;
pub mod ledger;
pub mod transaction;
pub mod pool;
pub mod scheduler;
