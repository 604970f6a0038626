use vstd::prelude::*;

use crate::error::StakeError;
use crate::status::Status;

verus! {

/// The way a withdrawal is carried out.
#[derive(Clone, Copy, Debug, PartialEq, Eq, Structural)]
pub enum WithdrawPath {
    /// Both flags `On`: a matured claim receipt is redeemed through the pool.
    Regular,
    /// Contract `Off`, pool `On`: a claim receipt is redeemed through the
    /// pool at the current rate, whether or not it has matured.
    EarlyWithReceipt,
    /// Contract `Off`, pool `On`: pool units are redeemed through the pool
    /// at the current rate.
    EarlyWithPoolUnits,
    /// Both flags `Off`: a claim receipt is paid the value it recorded,
    /// from the reserve, without the pool.
    BypassWithReceipt,
    /// Both flags `Off`: pool units are paid their current value from the
    /// reserve, and kept by the component.
    BypassWithPoolUnits,
}

/// Which withdrawal runs under the two flags, given whether pool units and
/// whether a claim receipt were presented.
pub open spec fn route(
    contract: Status,
    pool: Status,
    with_units: bool,
    with_receipt: bool,
) -> Result<WithdrawPath, StakeError> {
    match (contract, pool) {
        (Status::On, Status::On) => if !with_units && with_receipt {
            Ok(WithdrawPath::Regular)
        } else {
            Err(StakeError::InvalidWithdrawInput)
        },
        (Status::Off, Status::On) => if !with_units && with_receipt {
            Ok(WithdrawPath::EarlyWithReceipt)
        } else if with_units && !with_receipt {
            Ok(WithdrawPath::EarlyWithPoolUnits)
        } else {
            Err(StakeError::InvalidWithdrawInput)
        },
        (Status::Off, Status::Off) => if !with_units && with_receipt {
            Ok(WithdrawPath::BypassWithReceipt)
        } else if with_units && !with_receipt {
            Ok(WithdrawPath::BypassWithPoolUnits)
        } else {
            Err(StakeError::InvalidWithdrawInput)
        },
        (Status::On, Status::Off) => Err(StakeError::InvalidStatusCombination),
    }
}

/// Picks the withdrawal that runs under the two flags for the presented
/// input.
pub fn withdraw_route(contract: Status, pool: Status, with_units: bool, with_receipt: bool) -> (r:
    Result<WithdrawPath, StakeError>)
    ensures
        r == route(contract, pool, with_units, with_receipt),
{
    match (contract, pool) {
        (Status::On, Status::On) => {
            if !with_units && with_receipt {
                Ok(WithdrawPath::Regular)
            } else {
                Err(StakeError::InvalidWithdrawInput)
            }
        },
        (Status::Off, Status::On) => {
            if !with_units && with_receipt {
                Ok(WithdrawPath::EarlyWithReceipt)
            } else if with_units && !with_receipt {
                Ok(WithdrawPath::EarlyWithPoolUnits)
            } else {
                Err(StakeError::InvalidWithdrawInput)
            }
        },
        (Status::Off, Status::Off) => {
            if !with_units && with_receipt {
                Ok(WithdrawPath::BypassWithReceipt)
            } else if with_units && !with_receipt {
                Ok(WithdrawPath::BypassWithPoolUnits)
            } else {
                Err(StakeError::InvalidWithdrawInput)
            }
        },
        (Status::On, Status::Off) => Err(StakeError::InvalidStatusCombination),
    }
}

} // verus!
