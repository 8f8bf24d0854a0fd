//! Failures of the curve operations.
use vstd::prelude::*;

verus! {

/// Every way a curve, migration or configuration operation can fail.
#[derive(Debug, Clone, Copy, PartialEq, Eq, Structural)]
pub enum PumpFunError {
    /// The caller is not the configured authority, or the authority is the null identity.
    UnauthorizedAddress,
    /// A configuration update tried to replace the authority.
    CannotChangeAuthority,
    /// The fee exceeds the amount it is taken from.
    InsufficientFunds,
    /// The reserve that the formula divides by is zero.
    DivisionByZero,
    /// The computed output is below the caller's minimum.
    InsufficientAmountOut,
    /// A reserve update would leave the range of the reserve counters.
    InvalidReserves,
    /// A trade of zero units.
    ZeroAmount,
    /// Migration of a curve that has not reached its limit.
    CurveNotCompleted,
    /// Migration of a curve that was already migrated.
    AlreadyMigrated,
    /// The curve holds no tokens to migrate.
    InsufficientTokenBalance,
    /// The curve holds no currency to migrate, or less than the fee.
    InsufficientSolBalance,
    /// The pool's opening price could not be computed. The price call is
    /// documented to succeed at the tick a migration opens at, so a
    /// migration does not fail with this in practice.
    MathOverflow,
}

} // verus!
