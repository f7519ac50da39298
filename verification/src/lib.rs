//! Dispatch of operations against a remote ledger: a pool that runs a batch of
//! balance queries and transfers side by side and hands out their results in the
//! order in which they complete, and an invoker that runs one transfer for each
//! block-commit notification of a subscription, one at a time.
//!
//! The library decides; its caller talks to the ledger. Each execution is a
//! state machine that is handed the ledger's answers and says what to ask next.

use vstd::prelude::*;

pub mod config;
pub mod execute;
pub mod invoker;
pub mod ledger;
pub mod model;
pub mod pool;
pub mod report;
pub mod units;

verus! {

} // verus!
