use vstd::prelude::*;

use crate::claims::{is_live, ClaimRegistry, NFTClaimReceiptData};
use crate::countdown::{countdown_of, unstake_countdown, UnstakeCountdown};
use crate::error::StakeError;
use crate::model::{lemma_escrowed_push, lemma_escrowed_update, StakeView};
use crate::pool::{lemma_value_within_vault, redemption_error, value_of, PoolLedger};
use crate::resource::{
    receipts_view, FungibleBucket, GlobalAddress, NonFungibleBucket, ResourceAddress,
};
use crate::route::{withdraw_route, WithdrawPath};
use crate::status::Status;

verus! {

/// A staking component: it takes the staked asset into its reserve, mints a
/// synthetic stand-in for it one for one and contributes that to a pool,
/// whose units go to the staker. Unstaking puts units in escrow behind a
/// claim receipt that matures after the unstake period. Two flags, for the
/// contract and for the pool, select how withdrawals are paid.
pub struct DeXterStake {
    dapp_definition_address: GlobalAddress,
    stake_vault_actual: u128,
    stake_token_actual: ResourceAddress,
    stake_vault_lp_token: u128,
    unstake_period: u64,
    nft_claim_receipt_resource: ResourceAddress,
    nft_claim_receipts: ClaimRegistry<NFTClaimReceiptData>,
    stake_pool_synth: PoolLedger,
    stake_pool_synth_token: ResourceAddress,
    stake_pool_synth_supply: u128,
    stake_pool_lp_token: ResourceAddress,
    owner_badge: ResourceAddress,
    super_admin_badge_resource_address: ResourceAddress,
    admin_badge_resource_address: ResourceAddress,
    contract_status: Status,
    pool_status: Status,
}

/// A copy of a staking component's state, for reporting.
#[derive(Clone, Copy, Debug)]
pub struct StakeState {
    pub stake_token_actual: ResourceAddress,
    pub stake_pool_synth_token: ResourceAddress,
    pub stake_pool_lp_token: ResourceAddress,
    pub nft_claim_receipt_resource: ResourceAddress,
    pub stake_vault_actual: u128,
    pub stake_vault_lp_token: u128,
    pub stake_pool_synth_supply: u128,
    pub pool_vault_amount: u128,
    pub pool_unit_supply: u128,
    pub unstake_period: u64,
    pub contract_status: Status,
    pub pool_status: Status,
    pub dapp_definition_address: GlobalAddress,
    pub owner_badge: ResourceAddress,
    pub super_admin_badge: ResourceAddress,
    pub admin_badge: ResourceAddress,
}

impl View for DeXterStake {
    type V = StakeView;

    closed spec fn view(&self) -> StakeView {
        StakeView {
            stake_token: self.stake_token_actual,
            synth_token: self.stake_pool_synth_token,
            pool_unit_token: self.stake_pool_lp_token,
            receipt_token: self.nft_claim_receipt_resource,
            reserve: self.stake_vault_actual as int,
            escrow: self.stake_vault_lp_token as int,
            synth_supply: self.stake_pool_synth_supply as int,
            pool_vault: self.stake_pool_synth.vault_spec(),
            pool_supply: self.stake_pool_synth.supply_spec(),
            unstake_period: self.unstake_period as int,
            claims: self.nft_claim_receipts@,
            contract_status: self.contract_status,
            pool_status: self.pool_status,
            dapp_definition: self.dapp_definition_address,
            owner_badge: self.owner_badge,
            super_admin_badge: self.super_admin_badge_resource_address,
            admin_badge: self.admin_badge_resource_address,
        }
    }
}

impl DeXterStake {
    /// Whether the component is in a state it can be in.
    pub open spec fn wf(&self) -> bool {
        self@.inv()
    }

    /// A component for `stake_token_actual` with claims that mature after
    /// `unstake_period` epochs, both flags `On`, an empty reserve and an
    /// empty pool. The other addresses name the resources and badges it
    /// works with.
    pub fn instantiate_stake(
        stake_token_actual: ResourceAddress,
        unstake_period: u64,
        stake_pool_synth_token: ResourceAddress,
        stake_pool_lp_token: ResourceAddress,
        nft_claim_receipt_resource: ResourceAddress,
        owner_badge: ResourceAddress,
        super_admin_badge: ResourceAddress,
        admin_badge: ResourceAddress,
        dapp_definition_address: GlobalAddress,
    ) -> (r: Result<DeXterStake, StakeError>)
        ensures
            unstake_period == 0 ==> r == Err::<DeXterStake, StakeError>(
                StakeError::ZeroUnstakePeriod,
            ),
            unstake_period > 0 ==> r is Ok && (r->Ok_0).wf() && (r->Ok_0)@ == (StakeView {
                stake_token: stake_token_actual,
                synth_token: stake_pool_synth_token,
                pool_unit_token: stake_pool_lp_token,
                receipt_token: nft_claim_receipt_resource,
                reserve: 0,
                escrow: 0,
                synth_supply: 0,
                pool_vault: 0,
                pool_supply: 0,
                unstake_period: unstake_period as int,
                claims: Seq::empty(),
                contract_status: Status::On,
                pool_status: Status::On,
                dapp_definition: dapp_definition_address,
                owner_badge,
                super_admin_badge,
                admin_badge,
            }),
    {
        if unstake_period == 0 {
            return Err(StakeError::ZeroUnstakePeriod);
        }
        Ok(
            DeXterStake {
                dapp_definition_address,
                stake_vault_actual: 0,
                stake_token_actual,
                stake_vault_lp_token: 0,
                unstake_period,
                nft_claim_receipt_resource,
                nft_claim_receipts: ClaimRegistry::new(),
                stake_pool_synth: PoolLedger::new(),
                stake_pool_synth_token,
                stake_pool_synth_supply: 0,
                stake_pool_lp_token,
                owner_badge,
                super_admin_badge_resource_address: super_admin_badge,
                admin_badge_resource_address: admin_badge,
                contract_status: Status::On,
                pool_status: Status::On,
            },
        )
    }

    pub(crate) fn check_active(&self) -> (r: Result<(), StakeError>)
        ensures
            match self@.activity_error() {
                Some(e) => r == Err::<(), StakeError>(e),
                None => r == Ok::<(), StakeError>(()),
            },
    {
        if self.contract_status == Status::Off {
            return Err(StakeError::ContractNotActive);
        }
        if self.pool_status == Status::Off {
            return Err(StakeError::PoolNotActive);
        }
        Ok(())
    }

    /// Checks `tokens` as an intake of staked asset and gives the reserve
    /// that would hold them.
    fn check_intake(&self, tokens: FungibleBucket) -> (r: Result<u128, StakeError>)
        ensures
            match self@.intake_error(tokens) {
                Some(e) => r == Err::<u128, StakeError>(e),
                None => r == Ok::<u128, StakeError>((self@.reserve + tokens.amount) as u128),
            },
    {
        self.check_active()?;
        if tokens.amount == 0 {
            return Err(StakeError::ZeroAmount);
        }
        if tokens.resource != self.stake_token_actual {
            return Err(StakeError::InvalidStakeToken);
        }
        match self.stake_vault_actual.checked_add(tokens.amount) {
            None => Err(StakeError::Overflow),
            Some(v) => Ok(v),
        }
    }

    /// Stakes `stake_tokens_actual` and returns the pool units minted for
    /// them.
    pub fn stake(&mut self, stake_tokens_actual: FungibleBucket) -> (r: Result<
        FungibleBucket,
        StakeError,
    >)
        requires
            old(self).wf(),
        ensures
            final(self).wf(),
            match old(self)@.stake_outcome(stake_tokens_actual) {
                Ok((s, units)) => final(self)@ == s && r == Ok::<FungibleBucket, StakeError>(
                    (FungibleBucket { resource: s.pool_unit_token, amount: units as u128 }),
                ),
                Err(e) => final(self)@ == old(self)@ && r == Err::<FungibleBucket, StakeError>(e),
            },
    {
        let reserve = self.check_intake(stake_tokens_actual)?;
        let amount = stake_tokens_actual.amount;
        let units = self.stake_pool_synth.contribute(amount)?;
        self.stake_vault_actual = reserve;
        self.stake_pool_synth_supply = self.stake_pool_synth_supply + amount;
        Ok(FungibleBucket { resource: self.stake_pool_lp_token, amount: units })
    }

    /// Adds `stake_tokens_actual` to the reserve and their synthetic
    /// stand-in to the pool without minting units, which raises the value of
    /// every unit.
    pub fn deposit(&mut self, stake_tokens_actual: FungibleBucket) -> (r: Result<(), StakeError>)
        requires
            old(self).wf(),
        ensures
            final(self).wf(),
            match old(self)@.deposit_outcome(stake_tokens_actual) {
                Ok(s) => final(self)@ == s && r == Ok::<(), StakeError>(()),
                Err(e) => final(self)@ == old(self)@ && r == Err::<(), StakeError>(e),
            },
    {
        let reserve = self.check_intake(stake_tokens_actual)?;
        let amount = stake_tokens_actual.amount;
        self.stake_pool_synth.protected_deposit(amount)?;
        self.stake_vault_actual = reserve;
        self.stake_pool_synth_supply = self.stake_pool_synth_supply + amount;
        Ok(())
    }

    /// Unstakes `pool_units` at `current_epoch`: they go into escrow and the
    /// returned claim receipt records them, the epoch at which the unstake
    /// period ends, and what they are worth now.
    pub fn unstake(&mut self, pool_units: FungibleBucket, current_epoch: u64) -> (r: Result<
        NonFungibleBucket,
        StakeError,
    >)
        requires
            old(self).wf(),
        ensures
            final(self).wf(),
            match old(self)@.unstake_outcome(pool_units, current_epoch) {
                Ok((s, id)) => final(self)@ == s && r is Ok && (r->Ok_0)@ == (
                    s.receipt_token,
                    seq![id as u64],
                ),
                Err(e) => final(self)@ == old(self)@ && r is Err && r->Err_0 == e,
            },
    {
        self.check_active()?;
        if pool_units.resource != self.stake_pool_lp_token {
            return Err(StakeError::InvalidPoolUnits);
        }
        if pool_units.amount == 0 {
            return Err(StakeError::ZeroAmount);
        }
        let redemption_value = self.stake_pool_synth.get_redemption_value(pool_units.amount)?;
        let unstake_period_end = match current_epoch.checked_add(self.unstake_period) {
            None => return Err(StakeError::Overflow),
            Some(e) => e,
        };
        let escrow = match self.stake_vault_lp_token.checked_add(pool_units.amount) {
            None => return Err(StakeError::Overflow),
            Some(e) => e,
        };
        if self.nft_claim_receipts.minted() == u64::MAX {
            return Err(StakeError::Overflow);
        }
        let data = NFTClaimReceiptData {
            stake_token_actual: self.stake_token_actual,
            stake_pool_synth_token: self.stake_pool_synth_token,
            unstake_period_end,
            pool_units: pool_units.amount,
            pending_unstake_amount: redemption_value,
        };
        proof {
            lemma_escrowed_push(self@.claims, Some(data));
        }
        let id = self.nft_claim_receipts.mint(data);
        self.stake_vault_lp_token = escrow;
        let mut ids: Vec<u64> = Vec::new();
        ids.push(id);
        proof {
            assert(ids@ =~= seq![id]);
        }
        Ok(NonFungibleBucket { resource: self.nft_claim_receipt_resource, ids })
    }

    /// Checks that `receipt` is exactly one live claim receipt of this
    /// component, and gives its id and data.
    pub(crate) fn check_receipt(&self, receipt: &NonFungibleBucket) -> (r: Result<
        (u64, NFTClaimReceiptData),
        StakeError,
    >)
        ensures
            match self@.receipt_error(receipt@) {
                Some(e) => r == Err::<(u64, NFTClaimReceiptData), StakeError>(e),
                None => r == Ok::<(u64, NFTClaimReceiptData), StakeError>(
                    (receipt@.1[0], self@.claims[receipt@.1[0] as int]->0),
                ),
            },
    {
        self.nft_claim_receipts.check_receipt(self.nft_claim_receipt_resource, receipt)
    }

    /// Redeems `units` through the pool and pays their value from the
    /// reserve.
    fn redeem_units(&mut self, units: u128) -> (r: Result<u128, StakeError>)
        requires
            old(self).wf(),
        ensures
            final(self).wf(),
            match old(self)@.pool_redemption(units as int) {
                Ok((s, paid)) => final(self)@ == s && r == Ok::<u128, StakeError>(paid as u128),
                Err(e) => final(self)@ == old(self)@ && r == Err::<u128, StakeError>(e),
            },
    {
        let value = self.stake_pool_synth.get_redemption_value(units)?;
        if value > self.stake_vault_actual {
            return Err(StakeError::InsufficientFunds);
        }
        proof {
            lemma_value_within_vault(units as int, self@.pool_vault, self@.pool_supply);
        }
        let paid = self.stake_pool_synth.redeem(units)?;
        self.stake_vault_actual = self.stake_vault_actual - paid;
        self.stake_pool_synth_supply = self.stake_pool_synth_supply - paid;
        Ok(paid)
    }

    /// Takes the units of the live claim `id` out of escrow, burns its
    /// receipt, and redeems the units through the pool.
    fn redeem_claim(&mut self, id: u64, claim: NFTClaimReceiptData) -> (r: Result<u128, StakeError>)
        requires
            old(self).wf(),
            is_live(old(self)@.claims, id as int),
            old(self)@.claims[id as int] == Some(claim),
        ensures
            final(self).wf(),
            match old(self)@.claim_redemption(id as int) {
                Ok((s, paid)) => final(self)@ == s && r == Ok::<u128, StakeError>(paid as u128),
                Err(e) => final(self)@ == old(self)@ && r == Err::<u128, StakeError>(e),
            },
    {
        let units = claim.pool_units;
        if units > self.stake_vault_lp_token {
            return Err(StakeError::InsufficientFunds);
        }
        let value = self.stake_pool_synth.get_redemption_value(units)?;
        proof {
            lemma_value_within_vault(units as int, self@.pool_vault, self@.pool_supply);
        }
        if value > self.stake_vault_actual {
            return Err(StakeError::InsufficientFunds);
        }
        proof {
            lemma_escrowed_update(self@.claims, id as int, None);
        }
        self.stake_vault_lp_token = self.stake_vault_lp_token - units;
        self.nft_claim_receipts.burn(id);
        self.redeem_units(units)
    }

    /// Pays the live claim `id` the value it recorded, from the reserve, and
    /// burns its receipt.
    pub(crate) fn bypass_claim(&mut self, id: u64, claim: NFTClaimReceiptData) -> (r: Result<u128, StakeError>)
        requires
            old(self).wf(),
            is_live(old(self)@.claims, id as int),
            old(self)@.claims[id as int] == Some(claim),
        ensures
            final(self).wf(),
            match old(self)@.claim_bypass(id as int) {
                Ok((s, paid)) => final(self)@ == s && r == Ok::<u128, StakeError>(paid as u128),
                Err(e) => final(self)@ == old(self)@ && r == Err::<u128, StakeError>(e),
            },
    {
        let value = claim.pending_unstake_amount;
        if value > self.stake_vault_actual {
            return Err(StakeError::InsufficientFunds);
        }
        proof {
            lemma_escrowed_update(self@.claims, id as int, None);
        }
        self.stake_vault_actual = self.stake_vault_actual - value;
        self.nft_claim_receipts.burn(id);
        Ok(value)
    }

    /// Pays `units` their current value from the reserve and keeps them.
    fn bypass_units(&mut self, units: u128) -> (r: Result<u128, StakeError>)
        requires
            old(self).wf(),
        ensures
            final(self).wf(),
            match old(self)@.units_bypass(units as int) {
                Ok((s, paid)) => final(self)@ == s && r == Ok::<u128, StakeError>(paid as u128),
                Err(e) => final(self)@ == old(self)@ && r == Err::<u128, StakeError>(e),
            },
    {
        let value = self.stake_pool_synth.get_redemption_value(units)?;
        proof {
            lemma_value_within_vault(units as int, self@.pool_vault, self@.pool_supply);
        }
        if value > self.stake_vault_actual {
            return Err(StakeError::InsufficientFunds);
        }
        let escrow = match self.stake_vault_lp_token.checked_add(units) {
            None => return Err(StakeError::Overflow),
            Some(e) => e,
        };
        self.stake_vault_actual = self.stake_vault_actual - value;
        self.stake_vault_lp_token = escrow;
        Ok(value)
    }

    /// Withdraws at `current_epoch`, with either pool units or one claim
    /// receipt as the two flags require, and returns the staked asset paid
    /// out:
    /// - contract and pool `On`: a claim receipt whose unstake period has
    ///   ended is redeemed through the pool and burned;
    /// - contract `Off`, pool `On`: a claim receipt is redeemed through the
    ///   pool and burned, matured or not; or pool units are redeemed through
    ///   the pool;
    /// - contract and pool `Off`: a claim receipt is paid the value it
    ///   recorded when unstaked, from the reserve, and burned; or pool units
    ///   are paid their current value from the reserve and kept;
    /// - contract `On`, pool `Off`: refused whatever is presented.
    pub fn withdraw_stake(
        &mut self,
        pool_units: Option<FungibleBucket>,
        nft_claim_receipt: Option<NonFungibleBucket>,
        current_epoch: u64,
    ) -> (r: Result<FungibleBucket, StakeError>)
        requires
            old(self).wf(),
        ensures
            final(self).wf(),
            match old(self)@.withdraw_outcome(
                pool_units,
                receipts_view(nft_claim_receipt),
                current_epoch,
            ) {
                Ok((s, paid)) => final(self)@ == s && r == Ok::<FungibleBucket, StakeError>(
                    (FungibleBucket { resource: s.stake_token, amount: paid as u128 }),
                ),
                Err(e) => final(self)@ == old(self)@ && r == Err::<FungibleBucket, StakeError>(e),
            },
    {
        let path = withdraw_route(
            self.contract_status,
            self.pool_status,
            pool_units.is_some(),
            nft_claim_receipt.is_some(),
        )?;
        let paid = match path {
            WithdrawPath::Regular => {
                let receipt = nft_claim_receipt.unwrap();
                let (id, claim) = self.check_receipt(&receipt)?;
                if current_epoch < claim.unstake_period_end {
                    return Err(StakeError::UnstakePeriodNotEnded);
                }
                if claim.unstake_period_end == 0 {
                    return Err(StakeError::InvalidUnstakePeriodEnd);
                }
                self.redeem_claim(id, claim)?
            },
            WithdrawPath::EarlyWithReceipt => {
                let receipt = nft_claim_receipt.unwrap();
                let (id, claim) = self.check_receipt(&receipt)?;
                self.redeem_claim(id, claim)?
            },
            WithdrawPath::BypassWithReceipt => {
                let receipt = nft_claim_receipt.unwrap();
                let (id, claim) = self.check_receipt(&receipt)?;
                self.bypass_claim(id, claim)?
            },
            WithdrawPath::EarlyWithPoolUnits => {
                let units = pool_units.unwrap();
                self.check_surrender(units)?;
                self.redeem_units(units.amount)?
            },
            WithdrawPath::BypassWithPoolUnits => {
                let units = pool_units.unwrap();
                self.check_surrender(units)?;
                self.bypass_units(units.amount)?
            },
        };
        Ok(FungibleBucket { resource: self.stake_token_actual, amount: paid })
    }

    pub(crate) fn check_surrender(&self, units: FungibleBucket) -> (r: Result<(), StakeError>)
        ensures
            match self@.units_error(units) {
                Some(e) => r == Err::<(), StakeError>(e),
                None => r == Ok::<(), StakeError>(()),
            },
    {
        if units.amount == 0 {
            return Err(StakeError::ZeroAmount);
        }
        if units.resource != self.stake_pool_lp_token {
            return Err(StakeError::InvalidPoolUnits);
        }
        Ok(())
    }

    /// What `pool_units` of the pool are worth now, in the staked asset.
    pub fn show_redemption_value(&self, pool_units: u128) -> (r: Result<u128, StakeError>)
        ensures
            self@.activity_error() is Some ==> r == Err::<u128, StakeError>(
                self@.activity_error()->0,
            ),
            self@.activity_error() is None && pool_units == 0 ==> r == Err::<u128, StakeError>(
                StakeError::ZeroAmount,
            ),
            self@.activity_error() is None && pool_units > 0 ==> match redemption_error(
                self@.pool_vault,
                self@.pool_supply,
                pool_units as int,
            ) {
                Some(e) => r == Err::<u128, StakeError>(e),
                None => r == Ok::<u128, StakeError>(
                    value_of(pool_units as int, self@.pool_vault, self@.pool_supply) as u128,
                ),
            },
    {
        self.check_active()?;
        if pool_units == 0 {
            return Err(StakeError::ZeroAmount);
        }
        self.stake_pool_synth.get_redemption_value(pool_units)
    }

    /// The synthetic asset the pool holds: the staked asset it accounts for.
    pub fn show_vault_amount(&self) -> (r: Result<u128, StakeError>)
        ensures
            match self@.activity_error() {
                Some(e) => r == Err::<u128, StakeError>(e),
                None => r == Ok::<u128, StakeError>(self@.pool_vault as u128),
            },
    {
        self.check_active()?;
        Ok(self.stake_pool_synth.get_vault_amount())
    }

    /// How long the claim behind `nft_claim_receipt` still has to wait at
    /// `current_epoch`.
    pub fn check_unstake_status(&self, nft_claim_receipt: &NonFungibleBucket, current_epoch: u64) -> (r:
        Result<UnstakeCountdown, StakeError>)
        ensures
            self@.activity_error() is Some ==> r == Err::<UnstakeCountdown, StakeError>(
                self@.activity_error()->0,
            ),
            self@.activity_error() is None ==> match self@.receipt_error(nft_claim_receipt@) {
                Some(e) => r == Err::<UnstakeCountdown, StakeError>(e),
                None => r == Ok::<UnstakeCountdown, StakeError>(
                    countdown_of(
                        (self@.claims[nft_claim_receipt@.1[0] as int]->0).unstake_period_end,
                        current_epoch,
                    ),
                ),
            },
    {
        self.check_active()?;
        let (_, claim) = self.check_receipt(nft_claim_receipt)?;
        Ok(unstake_countdown(claim.unstake_period_end, current_epoch))
    }

    /// The component's state, field by field.
    pub fn get_state(&self) -> (r: StakeState)
        ensures
            r.stake_token_actual == self@.stake_token,
            r.stake_pool_synth_token == self@.synth_token,
            r.stake_pool_lp_token == self@.pool_unit_token,
            r.nft_claim_receipt_resource == self@.receipt_token,
            r.stake_vault_actual == self@.reserve,
            r.stake_vault_lp_token == self@.escrow,
            r.stake_pool_synth_supply == self@.synth_supply,
            r.pool_vault_amount == self@.pool_vault,
            r.pool_unit_supply == self@.pool_supply,
            r.unstake_period == self@.unstake_period,
            r.contract_status == self@.contract_status,
            r.pool_status == self@.pool_status,
            r.dapp_definition_address == self@.dapp_definition,
            r.owner_badge == self@.owner_badge,
            r.super_admin_badge == self@.super_admin_badge,
            r.admin_badge == self@.admin_badge,
    {
        StakeState {
            stake_token_actual: self.stake_token_actual,
            stake_pool_synth_token: self.stake_pool_synth_token,
            stake_pool_lp_token: self.stake_pool_lp_token,
            nft_claim_receipt_resource: self.nft_claim_receipt_resource,
            stake_vault_actual: self.stake_vault_actual,
            stake_vault_lp_token: self.stake_vault_lp_token,
            stake_pool_synth_supply: self.stake_pool_synth_supply,
            pool_vault_amount: self.stake_pool_synth.get_vault_amount(),
            pool_unit_supply: self.stake_pool_synth.get_supply(),
            unstake_period: self.unstake_period,
            contract_status: self.contract_status,
            pool_status: self.pool_status,
            dapp_definition_address: self.dapp_definition_address,
            owner_badge: self.owner_badge,
            super_admin_badge: self.super_admin_badge_resource_address,
            admin_badge: self.admin_badge_resource_address,
        }
    }

    /// Sets the unstake period to `new_unstake_period` epochs.
    pub fn update_unstake_period(&mut self, new_unstake_period: u64) -> (r: Result<(), StakeError>)
        requires
            old(self).wf(),
        ensures
            final(self).wf(),
            match old(self)@.update_period_outcome(new_unstake_period) {
                Ok(s) => final(self)@ == s && r == Ok::<(), StakeError>(()),
                Err(e) => final(self)@ == old(self)@ && r == Err::<(), StakeError>(e),
            },
    {
        self.check_active()?;
        if new_unstake_period == 0 {
            return Err(StakeError::ZeroUnstakePeriod);
        }
        if new_unstake_period == self.unstake_period {
            return Err(StakeError::UnstakePeriodUnchanged);
        }
        self.unstake_period = new_unstake_period;
        Ok(())
    }

    /// Replaces the dApp definition account with `new_dapp_definition_account`.
    pub fn update_dapp_definition_account(
        &mut self,
        new_dapp_definition_account: GlobalAddress,
    ) -> (r: Result<(), StakeError>)
        requires
            old(self).wf(),
        ensures
            final(self).wf(),
            match old(self)@.dapp_update_outcome(new_dapp_definition_account) {
                Ok(s) => final(self)@ == s && r == Ok::<(), StakeError>(()),
                Err(e) => final(self)@ == old(self)@ && r == Err::<(), StakeError>(e),
            },
    {
        self.check_active()?;
        if new_dapp_definition_account == self.dapp_definition_address {
            return Err(StakeError::UnchangedValue);
        }
        self.dapp_definition_address = new_dapp_definition_account;
        Ok(())
    }

    /// Replaces each role badge that is given; none given may equal the
    /// badge it replaces.
    pub fn update_role_badge(
        &mut self,
        new_owner_badge: Option<ResourceAddress>,
        new_super_admin_badge: Option<ResourceAddress>,
        new_admin_badge: Option<ResourceAddress>,
    ) -> (r: Result<(), StakeError>)
        requires
            old(self).wf(),
        ensures
            final(self).wf(),
            match old(self)@.badge_update_outcome(
                new_owner_badge,
                new_super_admin_badge,
                new_admin_badge,
            ) {
                Ok(s) => final(self)@ == s && r == Ok::<(), StakeError>(()),
                Err(e) => final(self)@ == old(self)@ && r == Err::<(), StakeError>(e),
            },
    {
        self.check_active()?;
        let owner_unchanged = match new_owner_badge {
            Some(b) => b == self.owner_badge,
            None => false,
        };
        let super_admin_unchanged = match new_super_admin_badge {
            Some(b) => b == self.super_admin_badge_resource_address,
            None => false,
        };
        let admin_unchanged = match new_admin_badge {
            Some(b) => b == self.admin_badge_resource_address,
            None => false,
        };
        if owner_unchanged || super_admin_unchanged || admin_unchanged {
            return Err(StakeError::UnchangedValue);
        }
        if let Some(b) = new_owner_badge {
            self.owner_badge = b;
        }
        if let Some(b) = new_super_admin_badge {
            self.super_admin_badge_resource_address = b;
        }
        if let Some(b) = new_admin_badge {
            self.admin_badge_resource_address = b;
        }
        Ok(())
    }

    /// Flips the contract flag where `toggle_contract` holds and the pool
    /// flag where `toggle_pool` holds; refused where that would leave the
    /// pool `Off` while the contract is `On`.
    pub fn emergency_switch(&mut self, toggle_contract: bool, toggle_pool: bool) -> (r: Result<
        (),
        StakeError,
    >)
        requires
            old(self).wf(),
        ensures
            final(self).wf(),
            match old(self)@.switch_outcome(toggle_contract, toggle_pool) {
                Ok(s) => final(self)@ == s && r == Ok::<(), StakeError>(()),
                Err(e) => final(self)@ == old(self)@ && r == Err::<(), StakeError>(e),
            },
    {
        let contract = if toggle_contract {
            self.contract_status.toggled()
        } else {
            self.contract_status
        };
        let pool = if toggle_pool {
            self.pool_status.toggled()
        } else {
            self.pool_status
        };
        if contract == Status::On && pool == Status::Off {
            return Err(StakeError::InvalidStatusCombination);
        }
        self.contract_status = contract;
        self.pool_status = pool;
        Ok(())
    }

    /// Pays `units` their current value from the reserve and burns them.
    pub(crate) fn burn_units_bypass(&mut self, units: u128) -> (r: Result<u128, StakeError>)
        requires
            old(self).wf(),
        ensures
            final(self).wf(),
            match old(self)@.units_burn_bypass(units as int) {
                Ok((s, paid)) => final(self)@ == s && r == Ok::<u128, StakeError>(paid as u128),
                Err(e) => final(self)@ == old(self)@ && r == Err::<u128, StakeError>(e),
            },
    {
        let value = self.stake_pool_synth.get_redemption_value(units)?;
        proof {
            lemma_value_within_vault(units as int, self@.pool_vault, self@.pool_supply);
        }
        if value > self.stake_vault_actual {
            return Err(StakeError::InsufficientFunds);
        }
        self.stake_vault_actual = self.stake_vault_actual - value;
        self.stake_pool_synth.burn_units(units);
        Ok(value)
    }

    /// The pool the component contributes to.
    pub(crate) fn pool(&self) -> (r: &PoolLedger)
        ensures
            r.vault_spec() == self@.pool_vault,
            r.supply_spec() == self@.pool_supply,
    {
        &self.stake_pool_synth
    }
}

} // verus!
