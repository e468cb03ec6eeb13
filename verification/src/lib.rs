//! Custodial token staking: a participant locks a quantity of a fungible
//! asset into an escrow, accrues a reward proportional to elapsed time, and
//! later withdraws principal plus reward.
//!
//! The verified core is the staking state machine ([`machine`]), the reward
//! calculator ([`reward`]) and the derived-authority computation
//! ([`authority`]). The asset ledger itself, the host clock and account
//! creation are outside collaborators: the state machine works on plain
//! balances that the host reads from the ledger before a call and writes
//! back after a successful one.

pub mod authority;
pub mod errors;
pub mod machine;
pub mod reward;
