use vstd::prelude::*;

verus! {

/// One of the two independent on/off flags of a staking component.
#[derive(Clone, Copy, Debug, PartialEq, Eq, Structural)]
pub enum Status {
    On,
    Off,
}

impl Status {
    /// The flag flipped: `On` becomes `Off` and `Off` becomes `On`.
    pub open spec fn flipped(self) -> Status {
        match self {
            Status::On => Status::Off,
            Status::Off => Status::On,
        }
    }

    /// Flips the flag.
    pub fn toggled(self) -> (r: Status)
        ensures
            r == self.flipped(),
    {
        match self {
            Status::On => Status::Off,
            Status::Off => Status::On,
        }
    }
}

} // verus!
