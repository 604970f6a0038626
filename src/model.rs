use vstd::prelude::*;

use crate::claims::{receipt_error, NFTClaimReceiptData};
use crate::error::StakeError;
use crate::pool::{contribution_error, redemption_error, units_for, value_of};
use crate::resource::{FungibleBucket, GlobalAddress, ResourceAddress};
use crate::route::{route, WithdrawPath};
use crate::status::Status;

verus! {

/// The pool units that the claim recorded in `entry` holds in escrow.
pub open spec fn claim_units(entry: Option<NFTClaimReceiptData>) -> int {
    match entry {
        Some(c) => c.pool_units as int,
        None => 0,
    }
}

/// The pool units that all open claims in `claims` hold in escrow.
pub open spec fn escrowed_units(claims: Seq<Option<NFTClaimReceiptData>>) -> int
    decreases claims.len(),
{
    if claims.len() == 0 {
        0
    } else {
        escrowed_units(claims.drop_last()) + claim_units(claims.last())
    }
}

/// Recording one more claim adds its units.
pub proof fn lemma_escrowed_push(
    claims: Seq<Option<NFTClaimReceiptData>>,
    entry: Option<NFTClaimReceiptData>,
)
    ensures
        escrowed_units(claims.push(entry)) == escrowed_units(claims) + claim_units(entry),
{
    assert(claims.push(entry).drop_last() =~= claims);
}

/// Replacing one claim changes the total by the difference.
pub proof fn lemma_escrowed_update(
    claims: Seq<Option<NFTClaimReceiptData>>,
    i: int,
    entry: Option<NFTClaimReceiptData>,
)
    requires
        0 <= i < claims.len(),
    ensures
        escrowed_units(claims.update(i, entry)) == escrowed_units(claims) - claim_units(claims[i])
            + claim_units(entry),
    decreases claims.len(),
{
    let updated = claims.update(i, entry);
    if i == claims.len() - 1 {
        assert(updated.drop_last() =~= claims.drop_last());
    } else {
        lemma_escrowed_update(claims.drop_last(), i, entry);
        assert(updated.drop_last() =~= claims.drop_last().update(i, entry));
    }
}

/// No claim holds more units than all of them together.
pub proof fn lemma_escrowed_covers(claims: Seq<Option<NFTClaimReceiptData>>, i: int)
    requires
        0 <= i < claims.len(),
    ensures
        0 <= claim_units(claims[i]) <= escrowed_units(claims),
    decreases claims.len(),
{
    lemma_escrowed_nonnegative(claims.drop_last());
    if i < claims.len() - 1 {
        lemma_escrowed_covers(claims.drop_last(), i);
    }
}

proof fn lemma_escrowed_nonnegative(claims: Seq<Option<NFTClaimReceiptData>>)
    ensures
        escrowed_units(claims) >= 0,
    decreases claims.len(),
{
    if claims.len() > 0 {
        lemma_escrowed_nonnegative(claims.drop_last());
    }
}

/// The state of a staking component, as plain mathematical values.
pub ghost struct StakeView {
    /// The asset accepted for staking.
    pub stake_token: ResourceAddress,
    /// The synthetic stand-in for the staked asset that the pool holds.
    pub synth_token: ResourceAddress,
    /// The units of the pool.
    pub pool_unit_token: ResourceAddress,
    /// The claim receipts.
    pub receipt_token: ResourceAddress,
    /// Staked asset held by the component.
    pub reserve: int,
    /// Pool units held by the component for open claims.
    pub escrow: int,
    /// Synthetic asset in existence.
    pub synth_supply: int,
    /// Synthetic asset held by the pool.
    pub pool_vault: int,
    /// Pool units in existence.
    pub pool_supply: int,
    /// Epochs a claim waits before it can be withdrawn normally.
    pub unstake_period: int,
    /// The claim receipts by id: `None` once burned.
    pub claims: Seq<Option<NFTClaimReceiptData>>,
    pub contract_status: Status,
    pub pool_status: Status,
    pub dapp_definition: GlobalAddress,
    pub owner_badge: ResourceAddress,
    pub super_admin_badge: ResourceAddress,
    pub admin_badge: ResourceAddress,
}

/// A call on a staking component, with its arguments.
pub ghost enum Operation {
    Stake { tokens: FungibleBucket },
    Deposit { tokens: FungibleBucket },
    Unstake { units: FungibleBucket, epoch: u64 },
    Withdraw {
        pool_units: Option<FungibleBucket>,
        receipt: Option<(ResourceAddress, Seq<u64>)>,
        epoch: u64,
    },
    Switch { toggle_contract: bool, toggle_pool: bool },
    UpdateUnstakePeriod { period: u64 },
    UpdateDappDefinition { account: GlobalAddress },
    UpdateRoleBadges {
        owner: Option<ResourceAddress>,
        super_admin: Option<ResourceAddress>,
        admin: Option<ResourceAddress>,
    },
}

impl StakeView {
    /// What holds of every state a component can be in: amounts fit in a
    /// `u128`, the synthetic asset in existence is exactly what the pool
    /// holds, the escrow holds at least the units of all open claims, the
    /// unstake period is positive, and the pool is never off while
    /// the contract is on.
    pub open spec fn inv(self) -> bool {
        &&& 0 <= self.reserve <= u128::MAX
        &&& 0 <= self.escrow <= u128::MAX
        &&& 0 <= self.pool_vault <= u128::MAX
        &&& 0 <= self.pool_supply <= u128::MAX
        &&& self.synth_supply == self.pool_vault
        &&& self.escrow >= escrowed_units(self.claims)
        &&& self.unstake_period > 0
        &&& !(self.contract_status == Status::On && self.pool_status == Status::Off)
    }

    /// Why an operation that needs both flags `On` is refused, if it is.
    pub open spec fn activity_error(self) -> Option<StakeError> {
        if self.contract_status == Status::Off {
            Some(StakeError::ContractNotActive)
        } else if self.pool_status == Status::Off {
            Some(StakeError::PoolNotActive)
        } else {
            None
        }
    }

    /// Why `tokens` cannot be taken in as staked asset, if they cannot.
    pub open spec fn intake_error(self, tokens: FungibleBucket) -> Option<StakeError> {
        if self.activity_error() is Some {
            self.activity_error()
        } else if tokens.amount == 0 {
            Some(StakeError::ZeroAmount)
        } else if tokens.resource != self.stake_token {
            Some(StakeError::InvalidStakeToken)
        } else if self.reserve + tokens.amount > u128::MAX {
            Some(StakeError::Overflow)
        } else {
            None
        }
    }

    /// Staking `tokens`: the reserve takes them, as much synthetic asset is
    /// minted and contributed to the pool, and the pool units minted for it
    /// go to the caller.
    pub open spec fn stake_outcome(self, tokens: FungibleBucket) -> Result<
        (StakeView, int),
        StakeError,
    > {
        let amount = tokens.amount as int;
        if self.intake_error(tokens) is Some {
            Err(self.intake_error(tokens)->0)
        } else if contribution_error(self.pool_vault, self.pool_supply, amount) is Some {
            Err(contribution_error(self.pool_vault, self.pool_supply, amount)->0)
        } else {
            let units = units_for(amount, self.pool_vault, self.pool_supply);
            Ok(
                (
                    StakeView {
                        reserve: self.reserve + amount,
                        synth_supply: self.synth_supply + amount,
                        pool_vault: self.pool_vault + amount,
                        pool_supply: self.pool_supply + units,
                        ..self
                    },
                    units,
                ),
            )
        }
    }

    /// Depositing `tokens` as a reward: the reserve takes them and as much
    /// synthetic asset goes to the pool without minting units, so every
    /// unit is worth more.
    pub open spec fn deposit_outcome(self, tokens: FungibleBucket) -> Result<
        StakeView,
        StakeError,
    > {
        let amount = tokens.amount as int;
        if self.intake_error(tokens) is Some {
            Err(self.intake_error(tokens)->0)
        } else if self.pool_vault + amount > u128::MAX {
            Err(StakeError::Overflow)
        } else {
            Ok(
                StakeView {
                    reserve: self.reserve + amount,
                    synth_supply: self.synth_supply + amount,
                    pool_vault: self.pool_vault + amount,
                    ..self
                },
            )
        }
    }

    /// The claim recorded when `units` are unstaked at `epoch`.
    pub open spec fn new_claim(self, units: int, epoch: int) -> NFTClaimReceiptData {
        NFTClaimReceiptData {
            stake_token_actual: self.stake_token,
            stake_pool_synth_token: self.synth_token,
            unstake_period_end: (epoch + self.unstake_period) as u64,
            pool_units: units as u128,
            pending_unstake_amount: value_of(
                units,
                self.pool_vault,
                self.pool_supply,
            ) as u128,
        }
    }

    /// Unstaking `units` at `epoch`: the units go into escrow and a claim
    /// receipt records them, the epoch at which the unstake period ends, and
    /// what they are worth now. The result is the receipt's id.
    pub open spec fn unstake_outcome(self, units: FungibleBucket, epoch: u64) -> Result<
        (StakeView, int),
        StakeError,
    > {
        let amount = units.amount as int;
        if self.activity_error() is Some {
            Err(self.activity_error()->0)
        } else if units.resource != self.pool_unit_token {
            Err(StakeError::InvalidPoolUnits)
        } else if amount == 0 {
            Err(StakeError::ZeroAmount)
        } else if redemption_error(self.pool_vault, self.pool_supply, amount) is Some {
            Err(redemption_error(self.pool_vault, self.pool_supply, amount)->0)
        } else if epoch + self.unstake_period > u64::MAX {
            Err(StakeError::Overflow)
        } else if self.escrow + amount > u128::MAX {
            Err(StakeError::Overflow)
        } else if self.claims.len() >= u64::MAX {
            Err(StakeError::Overflow)
        } else {
            Ok(
                (
                    StakeView {
                        escrow: self.escrow + amount,
                        claims: self.claims.push(Some(self.new_claim(amount, epoch as int))),
                        ..self
                    },
                    self.claims.len() as int,
                ),
            )
        }
    }

    /// Why the presented receipts cannot be redeemed, if they cannot: they
    /// must be exactly one live claim receipt of this component.
    pub open spec fn receipt_error(self, receipt: (ResourceAddress, Seq<u64>)) -> Option<
        StakeError,
    > {
        receipt_error(self.claims, self.receipt_token, receipt)
    }

    /// Why `units` cannot be surrendered, if they cannot.
    pub open spec fn units_error(self, units: FungibleBucket) -> Option<StakeError> {
        if units.amount == 0 {
            Some(StakeError::ZeroAmount)
        } else if units.resource != self.pool_unit_token {
            Some(StakeError::InvalidPoolUnits)
        } else {
            None
        }
    }

    /// Redeeming `units` through the pool: the pool burns them and pays
    /// their current value in synthetic asset, which is burned, and as much
    /// of the staked asset leaves the reserve.
    pub open spec fn pool_redemption(self, units: int) -> Result<(StakeView, int), StakeError> {
        let value = value_of(units, self.pool_vault, self.pool_supply);
        if redemption_error(self.pool_vault, self.pool_supply, units) is Some {
            Err(redemption_error(self.pool_vault, self.pool_supply, units)->0)
        } else if value > self.reserve {
            Err(StakeError::InsufficientFunds)
        } else {
            Ok(
                (
                    StakeView {
                        reserve: self.reserve - value,
                        synth_supply: self.synth_supply - value,
                        pool_vault: self.pool_vault - value,
                        pool_supply: self.pool_supply - units,
                        ..self
                    },
                    value,
                ),
            )
        }
    }

    /// Redeeming the live claim `id` through the pool: its units leave
    /// escrow and are redeemed, and the receipt is burned.
    pub open spec fn claim_redemption(self, id: int) -> Result<(StakeView, int), StakeError> {
        let claim = self.claims[id]->0;
        let units = claim.pool_units as int;
        if units > self.escrow {
            Err(StakeError::InsufficientFunds)
        } else {
            StakeView {
                escrow: self.escrow - units,
                claims: self.claims.update(id, None),
                ..self
            }.pool_redemption(units)
        }
    }

    /// The maturity gate of a regular withdrawal of claim `id` at `epoch`.
    pub open spec fn maturity_error(self, id: int, epoch: int) -> Option<StakeError> {
        let end = (self.claims[id]->0).unstake_period_end as int;
        if epoch < end {
            Some(StakeError::UnstakePeriodNotEnded)
        } else if end == 0 {
            Some(StakeError::InvalidUnstakePeriodEnd)
        } else {
            None
        }
    }

    /// Paying the live claim `id` from the reserve the value it recorded
    /// when it was unstaked, without the pool; the receipt is burned and its
    /// units stay in escrow.
    pub open spec fn claim_bypass(self, id: int) -> Result<(StakeView, int), StakeError> {
        let value = (self.claims[id]->0).pending_unstake_amount as int;
        if value > self.reserve {
            Err(StakeError::InsufficientFunds)
        } else {
            Ok(
                (
                    StakeView {
                        reserve: self.reserve - value,
                        claims: self.claims.update(id, None),
                        ..self
                    },
                    value,
                ),
            )
        }
    }

    /// Paying `units` from the reserve their value at the pool's current
    /// rate, without redeeming them; the component keeps the units.
    pub open spec fn units_bypass(self, units: int) -> Result<(StakeView, int), StakeError> {
        let value = value_of(units, self.pool_vault, self.pool_supply);
        if redemption_error(self.pool_vault, self.pool_supply, units) is Some {
            Err(redemption_error(self.pool_vault, self.pool_supply, units)->0)
        } else if value > self.reserve {
            Err(StakeError::InsufficientFunds)
        } else if self.escrow + units > u128::MAX {
            Err(StakeError::Overflow)
        } else {
            Ok(
                (
                    StakeView { reserve: self.reserve - value, escrow: self.escrow + units, ..self },
                    value,
                ),
            )
        }
    }

    /// Paying `units` from the reserve their value at the pool's current
    /// rate, and burning them without redeeming them.
    pub open spec fn units_burn_bypass(self, units: int) -> Result<(StakeView, int), StakeError> {
        let value = value_of(units, self.pool_vault, self.pool_supply);
        if redemption_error(self.pool_vault, self.pool_supply, units) is Some {
            Err(redemption_error(self.pool_vault, self.pool_supply, units)->0)
        } else if value > self.reserve {
            Err(StakeError::InsufficientFunds)
        } else {
            Ok(
                (
                    StakeView {
                        reserve: self.reserve - value,
                        pool_supply: self.pool_supply - units,
                        ..self
                    },
                    value,
                ),
            )
        }
    }

    /// Withdrawing at `epoch` with the presented pool units or claim
    /// receipts; the result is the amount of staked asset paid out.
    pub open spec fn withdraw_outcome(
        self,
        units: Option<FungibleBucket>,
        receipt: Option<(ResourceAddress, Seq<u64>)>,
        epoch: u64,
    ) -> Result<(StakeView, int), StakeError> {
        match route(self.contract_status, self.pool_status, units is Some, receipt is Some) {
            Err(e) => Err(e),
            Ok(path) => match path {
                WithdrawPath::Regular => {
                    let r = receipt->0;
                    if self.receipt_error(r) is Some {
                        Err(self.receipt_error(r)->0)
                    } else if self.maturity_error(r.1[0] as int, epoch as int) is Some {
                        Err(self.maturity_error(r.1[0] as int, epoch as int)->0)
                    } else {
                        self.claim_redemption(r.1[0] as int)
                    }
                },
                WithdrawPath::EarlyWithReceipt => {
                    let r = receipt->0;
                    if self.receipt_error(r) is Some {
                        Err(self.receipt_error(r)->0)
                    } else {
                        self.claim_redemption(r.1[0] as int)
                    }
                },
                WithdrawPath::BypassWithReceipt => {
                    let r = receipt->0;
                    if self.receipt_error(r) is Some {
                        Err(self.receipt_error(r)->0)
                    } else {
                        self.claim_bypass(r.1[0] as int)
                    }
                },
                WithdrawPath::EarlyWithPoolUnits => {
                    let u = units->0;
                    if self.units_error(u) is Some {
                        Err(self.units_error(u)->0)
                    } else {
                        self.pool_redemption(u.amount as int)
                    }
                },
                WithdrawPath::BypassWithPoolUnits => {
                    let u = units->0;
                    if self.units_error(u) is Some {
                        Err(self.units_error(u)->0)
                    } else {
                        self.units_bypass(u.amount as int)
                    }
                },
            },
        }
    }

    /// Flipping the contract flag, the pool flag, or both; refused where it
    /// would leave the pool off while the contract is on.
    pub open spec fn switch_outcome(self, toggle_contract: bool, toggle_pool: bool) -> Result<
        StakeView,
        StakeError,
    > {
        let contract = if toggle_contract {
            self.contract_status.flipped()
        } else {
            self.contract_status
        };
        let pool = if toggle_pool {
            self.pool_status.flipped()
        } else {
            self.pool_status
        };
        if contract == Status::On && pool == Status::Off {
            Err(StakeError::InvalidStatusCombination)
        } else {
            Ok(StakeView { contract_status: contract, pool_status: pool, ..self })
        }
    }

    /// Setting the unstake period to `period`.
    pub open spec fn update_period_outcome(self, period: u64) -> Result<StakeView, StakeError> {
        if self.activity_error() is Some {
            Err(self.activity_error()->0)
        } else if period == 0 {
            Err(StakeError::ZeroUnstakePeriod)
        } else if period == self.unstake_period {
            Err(StakeError::UnstakePeriodUnchanged)
        } else {
            Ok(StakeView { unstake_period: period as int, ..self })
        }
    }

    /// Replacing the dApp definition account with `account`.
    pub open spec fn dapp_update_outcome(self, account: GlobalAddress) -> Result<
        StakeView,
        StakeError,
    > {
        if self.activity_error() is Some {
            Err(self.activity_error()->0)
        } else if account == self.dapp_definition {
            Err(StakeError::UnchangedValue)
        } else {
            Ok(StakeView { dapp_definition: account, ..self })
        }
    }

    /// Replacing the given role badges; each one given must differ from the
    /// one it replaces.
    pub open spec fn badge_update_outcome(
        self,
        owner: Option<ResourceAddress>,
        super_admin: Option<ResourceAddress>,
        admin: Option<ResourceAddress>,
    ) -> Result<StakeView, StakeError> {
        if self.activity_error() is Some {
            Err(self.activity_error()->0)
        } else if owner == Some(self.owner_badge) || super_admin == Some(self.super_admin_badge)
            || admin == Some(self.admin_badge) {
            Err(StakeError::UnchangedValue)
        } else {
            Ok(
                StakeView {
                    owner_badge: match owner {
                        Some(b) => b,
                        None => self.owner_badge,
                    },
                    super_admin_badge: match super_admin {
                        Some(b) => b,
                        None => self.super_admin_badge,
                    },
                    admin_badge: match admin {
                        Some(b) => b,
                        None => self.admin_badge,
                    },
                    ..self
                },
            )
        }
    }

    /// The state after `op`, and the amount of staked asset it moved into
    /// the reserve (negative where it paid out). A refused call changes
    /// nothing and moves nothing.
    pub open spec fn step(self, op: Operation) -> (StakeView, int) {
        match op {
            Operation::Stake { tokens } => match self.stake_outcome(tokens) {
                Ok((s, _)) => (s, tokens.amount as int),
                Err(_) => (self, 0),
            },
            Operation::Deposit { tokens } => match self.deposit_outcome(tokens) {
                Ok(s) => (s, tokens.amount as int),
                Err(_) => (self, 0),
            },
            Operation::Unstake { units, epoch } => match self.unstake_outcome(units, epoch) {
                Ok((s, _)) => (s, 0),
                Err(_) => (self, 0),
            },
            Operation::Withdraw { pool_units, receipt, epoch } => match self.withdraw_outcome(
                pool_units,
                receipt,
                epoch,
            ) {
                Ok((s, paid)) => (s, -paid),
                Err(_) => (self, 0),
            },
            Operation::Switch { toggle_contract, toggle_pool } => match self.switch_outcome(
                toggle_contract,
                toggle_pool,
            ) {
                Ok(s) => (s, 0),
                Err(_) => (self, 0),
            },
            Operation::UpdateUnstakePeriod { period } => match self.update_period_outcome(period) {
                Ok(s) => (s, 0),
                Err(_) => (self, 0),
            },
            Operation::UpdateDappDefinition { account } => match self.dapp_update_outcome(
                account,
            ) {
                Ok(s) => (s, 0),
                Err(_) => (self, 0),
            },
            Operation::UpdateRoleBadges { owner, super_admin, admin } => match self.badge_update_outcome(
                owner,
                super_admin,
                admin,
            ) {
                Ok(s) => (s, 0),
                Err(_) => (self, 0),
            },
        }
    }

    /// The state after the operations `ops`, one after the other.
    pub open spec fn run(self, ops: Seq<Operation>) -> StakeView
        decreases ops.len(),
    {
        if ops.len() == 0 {
            self
        } else {
            self.run(ops.drop_last()).step(ops.last()).0
        }
    }

    /// The staked asset that the operations `ops` moved into the reserve,
    /// less what they paid out.
    pub open spec fn net_inflow(self, ops: Seq<Operation>) -> int
        decreases ops.len(),
    {
        if ops.len() == 0 {
            0
        } else {
            self.net_inflow(ops.drop_last()) + self.run(ops.drop_last()).step(ops.last()).1
        }
    }
}

} // verus!
