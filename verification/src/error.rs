use vstd::prelude::*;

verus! {

/// Failure taxonomy of the pool core.
///
/// Every fallible core function reports one of these; a flow propagates the
/// first failure immediately and performs no state mutation, so an early
/// abort leaves the pool untouched.
#[derive(Clone, Copy, Debug, PartialEq, Eq, Structural)]
pub enum ErrorCode {
    /// The operation is disabled by the pool's status bitmask, or the pool
    /// is not open for trading yet.
    NotApproved,
    /// A token mint carries an extension the pool does not support.
    NotSupportMint,
    /// A curve computation produced a zero amount on some side, or a
    /// reserve that must be positive is zero.
    ZeroTradingTokens,
    /// A computed amount violates the caller's slippage bound.
    ExceededSlippage,
    /// Initial liquidity does not exceed the permanently locked amount.
    InitLpAmountTooLess,
    /// The stated LP mint is not the pool's LP mint.
    IncorrectLpMint,
    /// A checked arithmetic step overflowed or underflowed.
    ArithmeticOverflow,
}

} // verus!
