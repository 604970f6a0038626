use vstd::prelude::*;

use crate::claims::receipt_error;
use crate::countdown::{countdown_of, unstake_countdown, UnstakeCountdown};
use crate::dexter_stake::DeXterStake;
use crate::error::StakeError;
use crate::model::StakeView;
use crate::pool::{redemption_error, value_of};
use crate::resource::{
    receipts_view, FungibleBucket, GlobalAddress, NonFungibleBucket, ResourceAddress,
};
use crate::status::Status;

verus! {

/// A staking component with a synthetic stand-in and a pool, like
/// `DeXterStake`, but with the contract flag alone: the pool is always
/// live, and each emergency withdrawal has a call of its own, open while the
/// contract is `Off`.
pub struct Stake {
    inner: DeXterStake,
}

impl View for Stake {
    type V = StakeView;

    closed spec fn view(&self) -> StakeView {
        self.inner@
    }
}

impl Stake {
    /// Whether the component is in a state it can be in: that of a
    /// `DeXterStake` whose pool flag is `On`.
    pub open spec fn wf(&self) -> bool {
        self@.inv() && self@.pool_status == Status::On
    }

    /// Why an emergency withdrawal is refused by the flag, if it is.
    pub open spec fn emergency_error(view: StakeView) -> Option<StakeError> {
        if view.contract_status == Status::On {
            Some(StakeError::ContractActive)
        } else {
            None
        }
    }

    /// A component for `stake_token_actual` with claims that mature after
    /// `unstake_period` epochs, the contract `On`, an empty reserve and an
    /// empty pool.
    pub fn instantiate_stake(
        stake_token_actual: ResourceAddress,
        unstake_period: u64,
        stake_pool_synth_token: ResourceAddress,
        stake_pool_lp_token: ResourceAddress,
        nft_claim_receipt_resource: ResourceAddress,
        owner_badge: ResourceAddress,
        dapp_definition_address: GlobalAddress,
    ) -> (r: Result<Stake, StakeError>)
        ensures
            unstake_period == 0 ==> r == Err::<Stake, StakeError>(StakeError::ZeroUnstakePeriod),
            unstake_period > 0 ==> r is Ok && (r->Ok_0).wf() && (r->Ok_0)@ == (StakeView {
                stake_token: stake_token_actual,
                synth_token: stake_pool_synth_token,
                pool_unit_token: stake_pool_lp_token,
                receipt_token: nft_claim_receipt_resource,
                reserve: 0,
                escrow: 0,
                synth_supply: 0,
                pool_vault: 0,
                pool_supply: 0,
                unstake_period: unstake_period as int,
                claims: Seq::empty(),
                contract_status: Status::On,
                pool_status: Status::On,
                dapp_definition: dapp_definition_address,
                owner_badge,
                super_admin_badge: owner_badge,
                admin_badge: owner_badge,
            }),
    {
        let inner = DeXterStake::instantiate_stake(
            stake_token_actual,
            unstake_period,
            stake_pool_synth_token,
            stake_pool_lp_token,
            nft_claim_receipt_resource,
            owner_badge,
            owner_badge,
            owner_badge,
            dapp_definition_address,
        )?;
        Ok(Stake { inner })
    }

    /// Stakes `stake_tokens_actual` and returns the pool units minted for
    /// them.
    pub fn stake(&mut self, stake_tokens_actual: FungibleBucket) -> (r: Result<
        FungibleBucket,
        StakeError,
    >)
        requires
            old(self).wf(),
        ensures
            final(self).wf(),
            match old(self)@.stake_outcome(stake_tokens_actual) {
                Ok((s, units)) => final(self)@ == s && r == Ok::<FungibleBucket, StakeError>(
                    (FungibleBucket { resource: s.pool_unit_token, amount: units as u128 }),
                ),
                Err(e) => final(self)@ == old(self)@ && r == Err::<FungibleBucket, StakeError>(e),
            },
    {
        self.inner.stake(stake_tokens_actual)
    }

    /// Unstakes `pool_units` at `current_epoch` behind a new claim receipt.
    pub fn unstake(&mut self, pool_units: FungibleBucket, current_epoch: u64) -> (r: Result<
        NonFungibleBucket,
        StakeError,
    >)
        requires
            old(self).wf(),
        ensures
            final(self).wf(),
            match old(self)@.unstake_outcome(pool_units, current_epoch) {
                Ok((s, id)) => final(self)@ == s && r is Ok && (r->Ok_0)@ == (
                    s.receipt_token,
                    seq![id as u64],
                ),
                Err(e) => final(self)@ == old(self)@ && r is Err && r->Err_0 == e,
            },
    {
        self.inner.unstake(pool_units, current_epoch)
    }

    /// Redeems a claim receipt whose unstake period has ended, through the
    /// pool, and burns it.
    pub fn withdraw_stake(&mut self, nft_claim_receipt: NonFungibleBucket, current_epoch: u64) -> (r:
        Result<FungibleBucket, StakeError>)
        requires
            old(self).wf(),
        ensures
            final(self).wf(),
            old(self)@.contract_status == Status::Off ==> r == Err::<FungibleBucket, StakeError>(
                StakeError::ContractNotActive,
            ) && final(self)@ == old(self)@,
            old(self)@.contract_status == Status::On ==> match old(self)@.withdraw_outcome(
                None,
                Some(nft_claim_receipt@),
                current_epoch,
            ) {
                Ok((s, paid)) => final(self)@ == s && r == Ok::<FungibleBucket, StakeError>(
                    (FungibleBucket { resource: s.stake_token, amount: paid as u128 }),
                ),
                Err(e) => final(self)@ == old(self)@ && r == Err::<FungibleBucket, StakeError>(e),
            },
    {
        self.inner.check_active()?;
        let ghost receipt = nft_claim_receipt@;
        let r = self.inner.withdraw_stake(None, Some(nft_claim_receipt), current_epoch);
        assert(receipts_view(Some(nft_claim_receipt)) == Some(receipt));
        r
    }

    /// What `pool_units` of the pool are worth now, in the staked asset.
    pub fn show_redemption_value(&self, pool_units: u128) -> (r: Result<u128, StakeError>)
        ensures
            pool_units == 0 ==> r == Err::<u128, StakeError>(StakeError::ZeroAmount),
            pool_units > 0 ==> match redemption_error(
                self@.pool_vault,
                self@.pool_supply,
                pool_units as int,
            ) {
                Some(e) => r == Err::<u128, StakeError>(e),
                None => r == Ok::<u128, StakeError>(
                    value_of(pool_units as int, self@.pool_vault, self@.pool_supply) as u128,
                ),
            },
    {
        if pool_units == 0 {
            return Err(StakeError::ZeroAmount);
        }
        self.inner.pool().get_redemption_value(pool_units)
    }

    /// The synthetic asset the pool holds.
    pub fn show_vault_amount(&self) -> (r: u128)
        ensures
            r == self@.pool_vault,
    {
        self.inner.pool().get_vault_amount()
    }

    /// How long the claim behind `nft_claim_receipt` still has to wait at
    /// `current_epoch`.
    pub fn check_unstake_status(&self, nft_claim_receipt: &NonFungibleBucket, current_epoch: u64) -> (r:
        Result<UnstakeCountdown, StakeError>)
        ensures
            match receipt_error(self@.claims, self@.receipt_token, nft_claim_receipt@) {
                Some(e) => r == Err::<UnstakeCountdown, StakeError>(e),
                None => r == Ok::<UnstakeCountdown, StakeError>(
                    countdown_of(
                        (self@.claims[nft_claim_receipt@.1[0] as int]->0).unstake_period_end,
                        current_epoch,
                    ),
                ),
            },
    {
        let (_, claim) = self.inner.check_receipt(nft_claim_receipt)?;
        Ok(unstake_countdown(claim.unstake_period_end, current_epoch))
    }

    /// Adds `stake_tokens_actual` to the reserve and their stand-in to the
    /// pool without minting units.
    pub fn deposit(&mut self, stake_tokens_actual: FungibleBucket) -> (r: Result<(), StakeError>)
        requires
            old(self).wf(),
        ensures
            final(self).wf(),
            match old(self)@.deposit_outcome(stake_tokens_actual) {
                Ok(s) => final(self)@ == s && r == Ok::<(), StakeError>(()),
                Err(e) => final(self)@ == old(self)@ && r == Err::<(), StakeError>(e),
            },
    {
        self.inner.deposit(stake_tokens_actual)
    }

    /// Sets the unstake period to `new_unstake_period` epochs.
    pub fn update_unstake_period(&mut self, new_unstake_period: u64) -> (r: Result<(), StakeError>)
        requires
            old(self).wf(),
        ensures
            final(self).wf(),
            match old(self)@.update_period_outcome(new_unstake_period) {
                Ok(s) => final(self)@ == s && r == Ok::<(), StakeError>(()),
                Err(e) => final(self)@ == old(self)@ && r == Err::<(), StakeError>(e),
            },
    {
        self.inner.update_unstake_period(new_unstake_period)
    }

    /// Flips the contract flag.
    pub fn emergency_switch(&mut self)
        requires
            old(self).wf(),
        ensures
            final(self).wf(),
            final(self)@ == (StakeView {
                contract_status: old(self)@.contract_status.flipped(),
                ..old(self)@
            }),
    {
        let _ = self.inner.emergency_switch(true, false);
    }

    /// Redeems `pool_units` through the pool at the current rate while the
    /// contract is `Off`.
    pub fn emergency_withdraw_with_pool_units(&mut self, pool_units: FungibleBucket) -> (r: Result<
        FungibleBucket,
        StakeError,
    >)
        requires
            old(self).wf(),
        ensures
            final(self).wf(),
            match Self::emergency_error(old(self)@) {
                Some(e) => r == Err::<FungibleBucket, StakeError>(e) && final(self)@ == old(self)@,
                None => match old(self)@.withdraw_outcome(Some(pool_units), None, 0) {
                    Ok((s, paid)) => final(self)@ == s && r == Ok::<FungibleBucket, StakeError>(
                        (FungibleBucket { resource: s.stake_token, amount: paid as u128 }),
                    ),
                    Err(e) => final(self)@ == old(self)@ && r == Err::<FungibleBucket, StakeError>(
                        e,
                    ),
                },
            },
    {
        if self.inner.get_state().contract_status == Status::On {
            return Err(StakeError::ContractActive);
        }
        self.inner.withdraw_stake(Some(pool_units), None, 0)
    }

    /// Redeems a claim receipt through the pool at the current rate while
    /// the contract is `Off`, whether or not it has matured, and burns it.
    pub fn emergency_withdraw_with_nft_claim_receipt(&mut self, nft_claim_receipt: NonFungibleBucket) -> (r:
        Result<FungibleBucket, StakeError>)
        requires
            old(self).wf(),
        ensures
            final(self).wf(),
            match Self::emergency_error(old(self)@) {
                Some(e) => r == Err::<FungibleBucket, StakeError>(e) && final(self)@ == old(self)@,
                None => match old(self)@.withdraw_outcome(None, Some(nft_claim_receipt@), 0) {
                    Ok((s, paid)) => final(self)@ == s && r == Ok::<FungibleBucket, StakeError>(
                        (FungibleBucket { resource: s.stake_token, amount: paid as u128 }),
                    ),
                    Err(e) => final(self)@ == old(self)@ && r == Err::<FungibleBucket, StakeError>(
                        e,
                    ),
                },
            },
    {
        if self.inner.get_state().contract_status == Status::On {
            return Err(StakeError::ContractActive);
        }
        let ghost receipt = nft_claim_receipt@;
        let r = self.inner.withdraw_stake(None, Some(nft_claim_receipt), 0);
        assert(receipts_view(Some(nft_claim_receipt)) == Some(receipt));
        r
    }

    /// Pays `pool_units` their current value from the reserve while the
    /// contract is `Off`, without redeeming them, and burns them.
    pub fn emergency_withdraw_pool_bypass_with_pool_units(&mut self, pool_units: FungibleBucket) -> (r:
        Result<FungibleBucket, StakeError>)
        requires
            old(self).wf(),
        ensures
            final(self).wf(),
            match Self::emergency_error(old(self)@) {
                Some(e) => r == Err::<FungibleBucket, StakeError>(e) && final(self)@ == old(self)@,
                None => match old(self)@.units_error(pool_units) {
                    Some(e) => r == Err::<FungibleBucket, StakeError>(e) && final(self)@ == old(
                        self,
                    )@,
                    None => match old(self)@.units_burn_bypass(pool_units.amount as int) {
                        Ok((s, paid)) => final(self)@ == s && r == Ok::<FungibleBucket, StakeError>(
                            (FungibleBucket { resource: s.stake_token, amount: paid as u128 }),
                        ),
                        Err(e) => final(self)@ == old(self)@ && r == Err::<
                            FungibleBucket,
                            StakeError,
                        >(e),
                    },
                },
            },
    {
        let state = self.inner.get_state();
        if state.contract_status == Status::On {
            return Err(StakeError::ContractActive);
        }
        self.inner.check_surrender(pool_units)?;
        let paid = self.inner.burn_units_bypass(pool_units.amount)?;
        Ok(FungibleBucket { resource: state.stake_token_actual, amount: paid })
    }

    /// Pays a claim receipt, while the contract is `Off`, the value it
    /// recorded when unstaked, from the reserve and without the pool, and
    /// burns it.
    pub fn emergency_withdraw_pool_bypass_with_nft_claim_receipt(
        &mut self,
        nft_claim_receipt: NonFungibleBucket,
    ) -> (r: Result<FungibleBucket, StakeError>)
        requires
            old(self).wf(),
        ensures
            final(self).wf(),
            match Self::emergency_error(old(self)@) {
                Some(e) => r == Err::<FungibleBucket, StakeError>(e) && final(self)@ == old(self)@,
                None => match old(self)@.receipt_error(nft_claim_receipt@) {
                    Some(e) => r == Err::<FungibleBucket, StakeError>(e) && final(self)@ == old(
                        self,
                    )@,
                    None => match old(self)@.claim_bypass(nft_claim_receipt@.1[0] as int) {
                        Ok((s, paid)) => final(self)@ == s && r == Ok::<FungibleBucket, StakeError>(
                            (FungibleBucket { resource: s.stake_token, amount: paid as u128 }),
                        ),
                        Err(e) => final(self)@ == old(self)@ && r == Err::<
                            FungibleBucket,
                            StakeError,
                        >(e),
                    },
                },
            },
    {
        let state = self.inner.get_state();
        if state.contract_status == Status::On {
            return Err(StakeError::ContractActive);
        }
        let (id, claim) = self.inner.check_receipt(&nft_claim_receipt)?;
        let paid = self.inner.bypass_claim(id, claim)?;
        Ok(FungibleBucket { resource: state.stake_token_actual, amount: paid })
    }
}

} // verus!
