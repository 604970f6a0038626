use vstd::prelude::*;

verus! {

/// Minutes that one epoch lasts.
pub const EPOCH_MINUTES: u64 = 5;

/// How long a claim still has to wait, in the coarsest unit that reads well.
#[derive(Clone, Copy, Debug, PartialEq, Eq, Structural)]
pub enum UnstakeCountdown {
    /// The unstake period has ended: the claim can be withdrawn.
    Ready,
    /// At least three days are left.
    Days { epochs_left: u64, days: u64 },
    /// At least one hour and under three days are left.
    Hours { epochs_left: u64, hours: u64 },
    /// Under an hour is left.
    Minutes { epochs_left: u64, minutes: u64 },
}

/// Epochs from `current_epoch` until `end`; none once `end` is reached.
pub open spec fn epochs_until(end: u64, current_epoch: u64) -> int {
    if end > current_epoch {
        end - current_epoch
    } else {
        0
    }
}

/// The minutes that `epochs` last; zero where that count would not fit.
pub open spec fn minutes_of(epochs: int) -> int {
    if epochs * EPOCH_MINUTES <= u64::MAX {
        epochs * EPOCH_MINUTES
    } else {
        0
    }
}

/// The countdown shown at `current_epoch` for a claim whose unstake period
/// ends at `end`.
pub open spec fn countdown_of(end: u64, current_epoch: u64) -> UnstakeCountdown {
    let epochs = epochs_until(end, current_epoch);
    let minutes = minutes_of(epochs);
    let hours = minutes / 60;
    let days = hours / 24;
    if epochs == 0 {
        UnstakeCountdown::Ready
    } else if days >= 3 {
        UnstakeCountdown::Days { epochs_left: epochs as u64, days: days as u64 }
    } else if 1 <= hours < 72 {
        UnstakeCountdown::Hours { epochs_left: epochs as u64, hours: hours as u64 }
    } else {
        UnstakeCountdown::Minutes { epochs_left: epochs as u64, minutes: minutes as u64 }
    }
}

/// The countdown shown at `current_epoch` for a claim whose unstake period
/// ends at `unstake_period_end`.
pub fn unstake_countdown(unstake_period_end: u64, current_epoch: u64) -> (r: UnstakeCountdown)
    ensures
        r == countdown_of(unstake_period_end, current_epoch),
{
    let epochs_left: u64 = match unstake_period_end.checked_sub(current_epoch) {
        Some(e) => e,
        None => 0,
    };
    let minutes_left: u64 = match epochs_left.checked_mul(EPOCH_MINUTES) {
        Some(m) => m,
        None => 0,
    };
    let hours_left: u64 = minutes_left / 60;
    let days_left: u64 = hours_left / 24;
    if epochs_left == 0 {
        UnstakeCountdown::Ready
    } else if days_left >= 3 {
        UnstakeCountdown::Days { epochs_left, days: days_left }
    } else if hours_left < 72 && hours_left >= 1 {
        UnstakeCountdown::Hours { epochs_left, hours: hours_left }
    } else {
        UnstakeCountdown::Minutes { epochs_left, minutes: minutes_left }
    }
}

} // verus!
