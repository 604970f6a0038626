use vstd::prelude::*;

verus! {

/// Why an operation of the staking component was refused. A refused call
/// leaves every piece of state as it was.
#[derive(Clone, Copy, Debug, PartialEq, Eq, Structural)]
pub enum StakeError {
    /// The contract flag is `Off` where the operation needs it `On`.
    ContractNotActive,
    /// The contract flag is `On` where the operation needs it `Off`.
    ContractActive,
    /// The pool flag is `Off` where the operation needs it `On`.
    PoolNotActive,
    /// The contract is `On` while the pool is `Off`: no operation runs there.
    InvalidStatusCombination,
    /// An amount that must be positive is zero.
    ZeroAmount,
    /// The presented tokens are not the staked asset.
    InvalidStakeToken,
    /// The presented tokens are not the pool's units.
    InvalidPoolUnits,
    /// The presented receipt is not a claim receipt of this component.
    InvalidReceipt,
    /// Not exactly one claim receipt was presented.
    WrongReceiptCount,
    /// The claim receipt was burned already, or never issued.
    UnknownReceipt,
    /// The combination of pool units and claim receipt does not fit the status.
    InvalidWithdrawInput,
    /// More is unstaked than the receipt holds staked.
    InvalidAmount,
    /// The receipt already carries an unstake request.
    UnstakePending,
    /// The unstake period of the claim has not ended.
    UnstakePeriodNotEnded,
    /// The claim carries an unstake period end of zero.
    InvalidUnstakePeriodEnd,
    /// An unstake period must be positive.
    ZeroUnstakePeriod,
    /// The new unstake period equals the current one.
    UnstakePeriodUnchanged,
    /// A new account or badge equals the one it would replace.
    UnchangedValue,
    /// More was asked of a vault or of the pool than it holds.
    InsufficientFunds,
    /// The pool holds units but no reserve, so no rate is defined.
    PoolWithoutReserve,
    /// An amount or an epoch left the range of its integer type.
    Overflow,
}

} // verus!
