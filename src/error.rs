use vstd::prelude::*;

verus! {

/// Every way an operation of the vault or of the leverage ledger can fail.
/// A failed operation leaves all state as it was.
#[derive(Debug, Clone, Copy, PartialEq, Eq, Structural)]
pub enum CrucibleError {
    /// The amount is zero, rounds to zero, or exceeds what it may reduce.
    InvalidAmount,
    /// A withdrawal or burn asks for more than the position holds.
    InsufficientBalance,
    /// Wrap, unwrap or opening leverage was attempted while paused.
    VaultPaused,
    /// An intermediate or a stored total does not fit its integer type.
    ArithmeticOverflow,
    /// A division by a zero exchange rate.
    DivisionByZero,
    /// The requested leverage is below 1x or above the configured maximum.
    InvalidLeverage,
    /// Liquidation was attempted on a healthy position.
    NotLiquidatable,
}

} // verus!
