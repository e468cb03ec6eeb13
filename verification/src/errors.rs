use vstd::prelude::*;

verus! {

/// Why a staking operation was refused.
///
/// Every failure aborts the whole operation: the participant's record and
/// all balances are left exactly as they were.
#[derive(Clone, Copy, Debug, PartialEq, Eq, Structural)]
pub enum ErrorCode {
    /// `stake` was called while the participant already holds an active stake.
    AlreadyStaked,
    /// `destake` was called while the participant holds no active stake.
    NotStaked,
    /// `stake` was called with an amount of zero.
    ZeroAmount,
    /// Scaling an amount or a duration by the asset scale left `u64`.
    ArithmeticOverflow,
    /// The clock reported a time earlier than the recorded staking time.
    InvalidClock,
    /// The pool holds less than the reward that is owed.
    InsufficientPoolFunds,
    /// The ledger refused a transfer: the source balance was too small or the
    /// destination balance would have left `u64`.
    LedgerError,
}

} // verus!
