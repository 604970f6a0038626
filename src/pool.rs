use vstd::prelude::*;

use crate::error::StakeError;
use crate::mul_div::mul_div;

verus! {

/// Pool units that `amount` buys from a pool holding `vault` of the
/// underlying asset with `supply` units out: one for one in a pool with no
/// units, otherwise in proportion, rounded down.
pub open spec fn units_for(amount: int, vault: int, supply: int) -> int {
    if supply == 0 {
        amount
    } else {
        amount * supply / vault
    }
}

/// Underlying asset that `units` are worth in a pool holding `vault` of it
/// with `supply` units out, rounded down; nothing where no units are out.
pub open spec fn value_of(units: int, vault: int, supply: int) -> int {
    if supply == 0 {
        0
    } else {
        units * vault / supply
    }
}

/// Why `units` of a pool holding `vault` with `supply` units out cannot be
/// priced or redeemed, if they cannot.
pub open spec fn redemption_error(vault: int, supply: int, units: int) -> Option<StakeError> {
    if units > supply {
        Some(StakeError::InsufficientFunds)
    } else {
        None
    }
}

/// Why `amount` cannot be contributed to a pool holding `vault` with
/// `supply` units out, if it cannot.
pub open spec fn contribution_error(vault: int, supply: int, amount: int) -> Option<StakeError> {
    if vault + amount > u128::MAX {
        Some(StakeError::Overflow)
    } else if supply == 0 {
        None
    } else if vault == 0 {
        Some(StakeError::PoolWithoutReserve)
    } else if units_for(amount, vault, supply) > u128::MAX {
        Some(StakeError::Overflow)
    } else if supply + units_for(amount, vault, supply) > u128::MAX {
        Some(StakeError::Overflow)
    } else {
        None
    }
}

/// A pool of one underlying asset, shared by the holders of its units.
/// Contributions mint units at the current rate; redemptions burn units and
/// pay their share of the reserve; a protected deposit raises the reserve
/// without minting, and so raises the value of every unit.
pub struct PoolLedger {
    vault: u128,
    supply: u128,
}

impl PoolLedger {
    /// Underlying asset held by the pool.
    pub closed spec fn vault_spec(&self) -> int {
        self.vault as int
    }

    /// Pool units outstanding.
    pub closed spec fn supply_spec(&self) -> int {
        self.supply as int
    }

    /// An empty pool: no reserve, no units.
    pub fn new() -> (r: PoolLedger)
        ensures
            r.vault_spec() == 0,
            r.supply_spec() == 0,
    {
        PoolLedger { vault: 0, supply: 0 }
    }

    /// Underlying asset held by the pool.
    pub fn get_vault_amount(&self) -> (r: u128)
        ensures
            r == self.vault_spec(),
    {
        self.vault
    }

    /// Pool units outstanding.
    pub fn get_supply(&self) -> (r: u128)
        ensures
            r == self.supply_spec(),
    {
        self.supply
    }

    /// What `units` of this pool are worth now, in the underlying asset.
    pub fn get_redemption_value(&self, units: u128) -> (r: Result<u128, StakeError>)
        ensures
            match redemption_error(self.vault_spec(), self.supply_spec(), units as int) {
                Some(e) => r == Err::<u128, StakeError>(e),
                None => r == Ok::<u128, StakeError>(
                    value_of(units as int, self.vault_spec(), self.supply_spec()) as u128,
                ),
            },
    {
        if units > self.supply {
            return Err(StakeError::InsufficientFunds);
        }
        if self.supply == 0 {
            return Ok(0);
        }
        proof {
            lemma_value_within_vault(units as int, self.vault as int, self.supply as int);
        }
        match mul_div(units, self.vault, self.supply) {
            None => Err(StakeError::Overflow),
            Some(v) => Ok(v),
        }
    }


    /// Adds `amount` of the underlying asset to the pool and mints the units
    /// it buys at the current rate.
    pub fn contribute(&mut self, amount: u128) -> (r: Result<u128, StakeError>)
        ensures
            match contribution_error(old(self).vault_spec(), old(self).supply_spec(), amount as int) {
                Some(e) => r == Err::<u128, StakeError>(e) && *final(self) == *old(self),
                None => {
                    let units = units_for(
                        amount as int,
                        old(self).vault_spec(),
                        old(self).supply_spec(),
                    );
                    &&& r == Ok::<u128, StakeError>(units as u128)
                    &&& final(self).vault_spec() == old(self).vault_spec() + amount
                    &&& final(self).supply_spec() == old(self).supply_spec() + units
                },
            },
    {
        let vault = match self.vault.checked_add(amount) {
            None => return Err(StakeError::Overflow),
            Some(v) => v,
        };
        if self.supply == 0 {
            self.vault = vault;
            self.supply = amount;
            return Ok(amount);
        }
        if self.vault == 0 {
            return Err(StakeError::PoolWithoutReserve);
        }
        let units = match mul_div(amount, self.supply, self.vault) {
            None => return Err(StakeError::Overflow),
            Some(u) => u,
        };
        let supply = match self.supply.checked_add(units) {
            None => return Err(StakeError::Overflow),
            Some(s) => s,
        };
        self.vault = vault;
        self.supply = supply;
        Ok(units)
    }

    /// Burns `units` and pays out what they are worth at the current rate.
    pub fn redeem(&mut self, units: u128) -> (r: Result<u128, StakeError>)
        ensures
            match redemption_error(old(self).vault_spec(), old(self).supply_spec(), units as int) {
                Some(e) => r == Err::<u128, StakeError>(e) && *final(self) == *old(self),
                None => {
                    let value = value_of(
                        units as int,
                        old(self).vault_spec(),
                        old(self).supply_spec(),
                    );
                    &&& r == Ok::<u128, StakeError>(value as u128)
                    &&& final(self).vault_spec() == old(self).vault_spec() - value
                    &&& final(self).supply_spec() == old(self).supply_spec() - units
                },
            },
    {
        let value = match self.get_redemption_value(units) {
            Err(e) => return Err(e),
            Ok(v) => v,
        };
        proof {
            lemma_value_within_vault(units as int, self.vault as int, self.supply as int);
        }
        self.vault = self.vault - value;
        self.supply = self.supply - units;
        Ok(value)
    }

    /// Burns `units` without paying them out, so that each remaining unit
    /// is worth more.
    pub fn burn_units(&mut self, units: u128)
        requires
            units <= old(self).supply_spec(),
        ensures
            final(self).vault_spec() == old(self).vault_spec(),
            final(self).supply_spec() == old(self).supply_spec() - units,
    {
        self.supply = self.supply - units;
    }

    /// Adds `amount` of the underlying asset to the pool without minting
    /// units, so that each unit is worth more.
    pub fn protected_deposit(&mut self, amount: u128) -> (r: Result<(), StakeError>)
        ensures
            old(self).vault_spec() + amount > u128::MAX ==> r == Err::<(), StakeError>(
                StakeError::Overflow,
            ) && *final(self) == *old(self),
            old(self).vault_spec() + amount <= u128::MAX ==> r == Ok::<(), StakeError>(())
                && final(self).vault_spec() == old(self).vault_spec() + amount
                && final(self).supply_spec() == old(self).supply_spec(),
    {
        match self.vault.checked_add(amount) {
            None => Err(StakeError::Overflow),
            Some(v) => {
                self.vault = v;
                Ok(())
            },
        }
    }
}

/// What some of the units are worth never exceeds the whole reserve.
pub proof fn lemma_value_within_vault(units: int, vault: int, supply: int)
    requires
        0 <= units <= supply,
        0 <= vault,
    ensures
        0 <= value_of(units, vault, supply) <= vault,
{
    if supply > 0 {
        assert(units * vault <= supply * vault) by (nonlinear_arith)
            requires
                0 <= units <= supply,
                0 <= vault,
        ;
        assert(0 <= units * vault / supply <= vault) by (nonlinear_arith)
            requires
                units * vault <= supply * vault,
                0 <= units,
                0 <= vault,
                supply > 0,
        ;
    }
}

} // verus!
