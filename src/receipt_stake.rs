use vstd::prelude::*;

use crate::claims::{is_live, receipt_error, ClaimRegistry};
use crate::countdown::{countdown_of, unstake_countdown, UnstakeCountdown};
use crate::error::StakeError;
use crate::resource::{FungibleBucket, NonFungibleBucket, ResourceAddress};
use crate::status::Status;

verus! {

/// What a stake receipt records.
#[derive(Clone, Copy, Debug, PartialEq, Eq, Structural)]
pub struct NFTReceiptData {
    /// The staked asset.
    pub staking_token: ResourceAddress,
    /// Staked and not asked back.
    pub amount_staked: u128,
    /// The epoch from which the pending amount can be withdrawn; zero while
    /// nothing is asked back.
    pub unstake_period_end: u64,
    /// Asked back and not yet withdrawn.
    pub pending_rewards: u128,
}

/// What a receipt entitles its holder to: its stake and its pending amount;
/// nothing once burned.
pub open spec fn owed(entry: Option<NFTReceiptData>) -> int {
    match entry {
        Some(d) => d.amount_staked + d.pending_rewards,
        None => 0,
    }
}

/// What all the receipts in `receipts` entitle their holders to.
pub open spec fn total_owed(receipts: Seq<Option<NFTReceiptData>>) -> int
    decreases receipts.len(),
{
    if receipts.len() == 0 {
        0
    } else {
        total_owed(receipts.drop_last()) + owed(receipts.last())
    }
}

/// Recording one more receipt adds what it entitles to.
proof fn lemma_total_owed_push(receipts: Seq<Option<NFTReceiptData>>, entry: Option<NFTReceiptData>)
    ensures
        total_owed(receipts.push(entry)) == total_owed(receipts) + owed(entry),
{
    assert(receipts.push(entry).drop_last() =~= receipts);
}

/// Replacing one receipt changes the total by the difference.
proof fn lemma_total_owed_update(
    receipts: Seq<Option<NFTReceiptData>>,
    i: int,
    entry: Option<NFTReceiptData>,
)
    requires
        0 <= i < receipts.len(),
    ensures
        total_owed(receipts.update(i, entry)) == total_owed(receipts) - owed(receipts[i]) + owed(
            entry,
        ),
    decreases receipts.len(),
{
    let updated = receipts.update(i, entry);
    if i == receipts.len() - 1 {
        assert(updated.drop_last() =~= receipts.drop_last());
    } else {
        lemma_total_owed_update(receipts.drop_last(), i, entry);
        assert(updated.drop_last() =~= receipts.drop_last().update(i, entry));
    }
}

/// No receipt entitles to more than all of them together.
proof fn lemma_total_owed_covers(receipts: Seq<Option<NFTReceiptData>>, i: int)
    requires
        0 <= i < receipts.len(),
    ensures
        0 <= owed(receipts[i]) <= total_owed(receipts),
    decreases receipts.len(),
{
    lemma_total_owed_nonnegative(receipts.drop_last());
    if i < receipts.len() - 1 {
        lemma_total_owed_covers(receipts.drop_last(), i);
    }
}

proof fn lemma_total_owed_nonnegative(receipts: Seq<Option<NFTReceiptData>>)
    ensures
        total_owed(receipts) >= 0,
    decreases receipts.len(),
{
    if receipts.len() > 0 {
        lemma_total_owed_nonnegative(receipts.drop_last());
    }
}

/// The state of a single-asset staking component, as plain values.
pub ghost struct ReceiptStakeView {
    pub staking_token: ResourceAddress,
    pub receipt_token: ResourceAddress,
    /// Staked asset held by the component.
    pub vault: int,
    pub unstake_period: int,
    /// The stake receipts by id: `None` once burned.
    pub receipts: Seq<Option<NFTReceiptData>>,
    pub contract_status: Status,
    pub owner_badge: ResourceAddress,
    pub admin_badge: ResourceAddress,
}

impl ReceiptStakeView {
    /// What holds of every state the component can be in: the vault holds
    /// exactly what the live receipts entitle their holders to.
    pub open spec fn inv(self) -> bool {
        self.vault == total_owed(self.receipts)
    }

    /// Why `tokens` cannot be taken in, if they cannot.
    pub open spec fn intake_error(self, tokens: FungibleBucket) -> Option<StakeError> {
        if self.contract_status == Status::Off {
            Some(StakeError::ContractNotActive)
        } else if tokens.amount == 0 {
            Some(StakeError::ZeroAmount)
        } else if tokens.resource != self.staking_token {
            Some(StakeError::InvalidStakeToken)
        } else if self.vault + tokens.amount > u128::MAX {
            Some(StakeError::Overflow)
        } else {
            None
        }
    }

    /// Staking `tokens`: the vault takes them and a new receipt records
    /// them. The result is the receipt's id.
    pub open spec fn stake_outcome(self, tokens: FungibleBucket) -> Result<
        (ReceiptStakeView, int),
        StakeError,
    > {
        if self.intake_error(tokens) is Some {
            Err(self.intake_error(tokens)->0)
        } else if self.receipts.len() >= u64::MAX {
            Err(StakeError::Overflow)
        } else {
            let data = NFTReceiptData {
                staking_token: self.staking_token,
                amount_staked: tokens.amount,
                unstake_period_end: 0,
                pending_rewards: 0,
            };
            Ok(
                (
                    ReceiptStakeView {
                        vault: self.vault + tokens.amount,
                        receipts: self.receipts.push(Some(data)),
                        ..self
                    },
                    self.receipts.len() as int,
                ),
            )
        }
    }

    /// Adding `tokens` to the stake recorded by `receipt`.
    pub open spec fn add_stake_outcome(
        self,
        receipt: (ResourceAddress, Seq<u64>),
        tokens: FungibleBucket,
    ) -> Result<ReceiptStakeView, StakeError> {
        let id = receipt.1[0] as int;
        let data = self.receipts[id]->0;
        if self.intake_error(tokens) is Some {
            Err(self.intake_error(tokens)->0)
        } else if receipt_error(self.receipts, self.receipt_token, receipt) is Some {
            Err(receipt_error(self.receipts, self.receipt_token, receipt)->0)
        } else if data.amount_staked + tokens.amount > u128::MAX {
            Err(StakeError::Overflow)
        } else {
            Ok(
                ReceiptStakeView {
                    vault: self.vault + tokens.amount,
                    receipts: self.receipts.update(
                        id,
                        Some(
                            NFTReceiptData {
                                amount_staked: (data.amount_staked + tokens.amount) as u128,
                                ..data
                            },
                        ),
                    ),
                    ..self
                },
            )
        }
    }

    /// Asking back `amount` of the stake recorded by `receipt` at `epoch`:
    /// it moves from staked to pending, and the receipt records the epoch at
    /// which the unstake period ends.
    pub open spec fn unstake_outcome(
        self,
        amount: u128,
        receipt: (ResourceAddress, Seq<u64>),
        epoch: u64,
    ) -> Result<ReceiptStakeView, StakeError> {
        let id = receipt.1[0] as int;
        let data = self.receipts[id]->0;
        if self.contract_status == Status::Off {
            Err(StakeError::ContractNotActive)
        } else if amount == 0 {
            Err(StakeError::ZeroAmount)
        } else if receipt_error(self.receipts, self.receipt_token, receipt) is Some {
            Err(receipt_error(self.receipts, self.receipt_token, receipt)->0)
        } else if amount > data.amount_staked {
            Err(StakeError::InvalidAmount)
        } else if data.unstake_period_end != 0 {
            Err(StakeError::UnstakePending)
        } else if epoch + self.unstake_period > u64::MAX {
            Err(StakeError::Overflow)
        } else if data.pending_rewards != 0 {
            Err(StakeError::UnstakePending)
        } else {
            Ok(
                ReceiptStakeView {
                    receipts: self.receipts.update(
                        id,
                        Some(
                            NFTReceiptData {
                                amount_staked: (data.amount_staked - amount) as u128,
                                unstake_period_end: (epoch + self.unstake_period) as u64,
                                pending_rewards: amount,
                                ..data
                            },
                        ),
                    ),
                    ..self
                },
            )
        }
    }

    /// Withdrawing the pending amount of `receipt` at `epoch`, once its
    /// unstake period has ended. A receipt with nothing left staked is
    /// burned; another is cleared for a new request and handed back. The
    /// result is the amount paid and whether the receipt was handed back.
    pub open spec fn withdraw_outcome(self, receipt: (ResourceAddress, Seq<u64>), epoch: u64) -> Result<
        (ReceiptStakeView, int, bool),
        StakeError,
    > {
        let id = receipt.1[0] as int;
        let data = self.receipts[id]->0;
        if self.contract_status == Status::Off {
            Err(StakeError::ContractNotActive)
        } else if receipt_error(self.receipts, self.receipt_token, receipt) is Some {
            Err(receipt_error(self.receipts, self.receipt_token, receipt)->0)
        } else if epoch < data.unstake_period_end {
            Err(StakeError::UnstakePeriodNotEnded)
        } else if data.unstake_period_end == 0 {
            Err(StakeError::InvalidUnstakePeriodEnd)
        } else if data.pending_rewards > self.vault {
            Err(StakeError::InsufficientFunds)
        } else if data.amount_staked == 0 {
            Ok(
                (
                    ReceiptStakeView {
                        vault: self.vault - data.pending_rewards,
                        receipts: self.receipts.update(id, None),
                        ..self
                    },
                    data.pending_rewards as int,
                    false,
                ),
            )
        } else {
            Ok(
                (
                    ReceiptStakeView {
                        vault: self.vault - data.pending_rewards,
                        receipts: self.receipts.update(
                            id,
                            Some(
                                NFTReceiptData {
                                    unstake_period_end: 0,
                                    pending_rewards: 0,
                                    ..data
                                },
                            ),
                        ),
                        ..self
                    },
                    data.pending_rewards as int,
                    true,
                ),
            )
        }
    }

    /// Withdrawing all that `receipt` records, staked and pending, while the
    /// contract is `Off`; the receipt is burned.
    pub open spec fn emergency_outcome(self, receipt: (ResourceAddress, Seq<u64>)) -> Result<
        (ReceiptStakeView, int),
        StakeError,
    > {
        let id = receipt.1[0] as int;
        let data = self.receipts[id]->0;
        let total = data.amount_staked + data.pending_rewards;
        if self.contract_status == Status::On {
            Err(StakeError::ContractActive)
        } else if receipt_error(self.receipts, self.receipt_token, receipt) is Some {
            Err(receipt_error(self.receipts, self.receipt_token, receipt)->0)
        } else if total > u128::MAX {
            Err(StakeError::Overflow)
        } else if total > self.vault {
            Err(StakeError::InsufficientFunds)
        } else {
            Ok(
                (
                    ReceiptStakeView {
                        vault: self.vault - total,
                        receipts: self.receipts.update(id, None),
                        ..self
                    },
                    total,
                ),
            )
        }
    }
}

/// A single-asset staking component: stakes sit in one vault, each
/// recorded by a receipt that can be topped up, asked back in part, and
/// withdrawn from once the unstake period has passed.
pub struct Stake {
    stake_vault: u128,
    staking_token: ResourceAddress,
    unstake_period: u64,
    nft_receipt_resource: ResourceAddress,
    nft_receipts: ClaimRegistry<NFTReceiptData>,
    owner_badge: ResourceAddress,
    admin_badge: ResourceAddress,
    contract_status: Status,
}

impl View for Stake {
    type V = ReceiptStakeView;

    closed spec fn view(&self) -> ReceiptStakeView {
        ReceiptStakeView {
            staking_token: self.staking_token,
            receipt_token: self.nft_receipt_resource,
            vault: self.stake_vault as int,
            unstake_period: self.unstake_period as int,
            receipts: self.nft_receipts@,
            contract_status: self.contract_status,
            owner_badge: self.owner_badge,
            admin_badge: self.admin_badge,
        }
    }
}

/// The vault always covers any one live receipt: a withdrawal, regular or
/// emergency, is never refused for want of funds.
pub proof fn lemma_vault_covers_receipt(s: ReceiptStakeView, id: int)
    requires
        s.inv(),
        is_live(s.receipts, id),
    ensures
        (s.receipts[id]->0).amount_staked + (s.receipts[id]->0).pending_rewards <= s.vault,
{
    lemma_total_owed_covers(s.receipts, id);
}

impl Stake {
    /// Whether the component is in a state it can be in.
    pub open spec fn wf(&self) -> bool {
        self@.inv()
    }

    /// A component for `staking_token` whose receipts are of the resource
    /// `nft_receipt_resource`, with an empty vault and the contract `On`.
    pub fn instantiate_stake(
        owner_badge: ResourceAddress,
        admin_badge: ResourceAddress,
        unstake_period: u64,
        staking_token: ResourceAddress,
        nft_receipt_resource: ResourceAddress,
    ) -> (r: Result<Stake, StakeError>)
        ensures
            unstake_period == 0 ==> r == Err::<Stake, StakeError>(StakeError::ZeroUnstakePeriod),
            unstake_period > 0 ==> r is Ok && (r->Ok_0).wf() && (r->Ok_0)@ == (ReceiptStakeView {
                staking_token,
                receipt_token: nft_receipt_resource,
                vault: 0,
                unstake_period: unstake_period as int,
                receipts: Seq::empty(),
                contract_status: Status::On,
                owner_badge,
                admin_badge,
            }),
    {
        if unstake_period == 0 {
            return Err(StakeError::ZeroUnstakePeriod);
        }
        Ok(
            Stake {
                stake_vault: 0,
                staking_token,
                unstake_period,
                nft_receipt_resource,
                nft_receipts: ClaimRegistry::new(),
                owner_badge,
                admin_badge,
                contract_status: Status::On,
            },
        )
    }

    fn check_intake(&self, tokens: FungibleBucket) -> (r: Result<u128, StakeError>)
        ensures
            match self@.intake_error(tokens) {
                Some(e) => r == Err::<u128, StakeError>(e),
                None => r == Ok::<u128, StakeError>((self@.vault + tokens.amount) as u128),
            },
    {
        if self.contract_status == Status::Off {
            return Err(StakeError::ContractNotActive);
        }
        if tokens.amount == 0 {
            return Err(StakeError::ZeroAmount);
        }
        if tokens.resource != self.staking_token {
            return Err(StakeError::InvalidStakeToken);
        }
        match self.stake_vault.checked_add(tokens.amount) {
            None => Err(StakeError::Overflow),
            Some(v) => Ok(v),
        }
    }

    /// Stakes `stake_tokens` and returns a new receipt recording them.
    pub fn stake(&mut self, stake_tokens: FungibleBucket) -> (r: Result<NonFungibleBucket, StakeError>)
        requires
            old(self).wf(),
        ensures
            final(self).wf(),
            match old(self)@.stake_outcome(stake_tokens) {
                Ok((s, id)) => final(self)@ == s && r is Ok && (r->Ok_0)@ == (
                    s.receipt_token,
                    seq![id as u64],
                ),
                Err(e) => final(self)@ == old(self)@ && r is Err && r->Err_0 == e,
            },
    {
        let vault = self.check_intake(stake_tokens)?;
        if self.nft_receipts.minted() == u64::MAX {
            return Err(StakeError::Overflow);
        }
        let data = NFTReceiptData {
            staking_token: self.staking_token,
            amount_staked: stake_tokens.amount,
            unstake_period_end: 0,
            pending_rewards: 0,
        };
        proof {
            lemma_total_owed_push(self@.receipts, Some(data));
        }
        let id = self.nft_receipts.mint(data);
        self.stake_vault = vault;
        let mut ids: Vec<u64> = Vec::new();
        ids.push(id);
        proof {
            assert(ids@ =~= seq![id]);
        }
        Ok(NonFungibleBucket { resource: self.nft_receipt_resource, ids })
    }

    /// Adds `additional_stake_tokens` to the stake recorded by `receipt`,
    /// and hands the receipt back.
    pub fn add_stake(&mut self, receipt: NonFungibleBucket, additional_stake_tokens: FungibleBucket) -> (r:
        Result<NonFungibleBucket, StakeError>)
        requires
            old(self).wf(),
        ensures
            final(self).wf(),
            match old(self)@.add_stake_outcome(receipt@, additional_stake_tokens) {
                Ok(s) => final(self)@ == s && r is Ok && (r->Ok_0)@ == receipt@,
                Err(e) => final(self)@ == old(self)@ && r is Err && r->Err_0 == e,
            },
    {
        let vault = self.check_intake(additional_stake_tokens)?;
        let (id, data) = self.nft_receipts.check_receipt(self.nft_receipt_resource, &receipt)?;
        let amount_staked = match data.amount_staked.checked_add(additional_stake_tokens.amount) {
            None => return Err(StakeError::Overflow),
            Some(a) => a,
        };
        proof {
            lemma_total_owed_update(self@.receipts, id as int, Some(NFTReceiptData { amount_staked, ..data }));
        }
        self.stake_vault = vault;
        self.nft_receipts.update(id, NFTReceiptData { amount_staked, ..data });
        Ok(receipt)
    }

    /// Asks back `amount` of the stake recorded by `receipt` at
    /// `current_epoch`, and hands the receipt back.
    pub fn unstake(&mut self, amount: u128, receipt: NonFungibleBucket, current_epoch: u64) -> (r:
        Result<NonFungibleBucket, StakeError>)
        requires
            old(self).wf(),
        ensures
            final(self).wf(),
            match old(self)@.unstake_outcome(amount, receipt@, current_epoch) {
                Ok(s) => final(self)@ == s && r is Ok && (r->Ok_0)@ == receipt@,
                Err(e) => final(self)@ == old(self)@ && r is Err && r->Err_0 == e,
            },
    {
        if self.contract_status == Status::Off {
            return Err(StakeError::ContractNotActive);
        }
        if amount == 0 {
            return Err(StakeError::ZeroAmount);
        }
        let (id, data) = self.nft_receipts.check_receipt(self.nft_receipt_resource, &receipt)?;
        if amount > data.amount_staked {
            return Err(StakeError::InvalidAmount);
        }
        if data.unstake_period_end != 0 {
            return Err(StakeError::UnstakePending);
        }
        let unstake_period_end = match current_epoch.checked_add(self.unstake_period) {
            None => return Err(StakeError::Overflow),
            Some(e) => e,
        };
        if data.pending_rewards != 0 {
            return Err(StakeError::UnstakePending);
        }
        let requested = NFTReceiptData {
            amount_staked: data.amount_staked - amount,
            unstake_period_end,
            pending_rewards: amount,
            ..data
        };
        proof {
            lemma_total_owed_update(self@.receipts, id as int, Some(requested));
        }
        self.nft_receipts.update(id, requested);
        Ok(receipt)
    }

    /// Withdraws the pending amount of `receipt` at `current_epoch`, once
    /// its unstake period has ended. A receipt with nothing left staked is
    /// burned; another is cleared for a new request and handed back.
    pub fn withdraw_stake(&mut self, receipt: NonFungibleBucket, current_epoch: u64) -> (r: Result<
        (Option<NonFungibleBucket>, Option<FungibleBucket>),
        StakeError,
    >)
        requires
            old(self).wf(),
        ensures
            final(self).wf(),
            match old(self)@.withdraw_outcome(receipt@, current_epoch) {
                Ok((s, paid, kept)) => {
                    &&& final(self)@ == s
                    &&& r is Ok
                    &&& (r->Ok_0).1 == Some(
                        (FungibleBucket { resource: s.staking_token, amount: paid as u128 }),
                    )
                    &&& ((r->Ok_0).0 is Some <==> kept)
                    &&& kept ==> ((r->Ok_0).0->0)@ == receipt@
                },
                Err(e) => final(self)@ == old(self)@ && r is Err && r->Err_0 == e,
            },
    {
        if self.contract_status == Status::Off {
            return Err(StakeError::ContractNotActive);
        }
        let (id, data) = self.nft_receipts.check_receipt(self.nft_receipt_resource, &receipt)?;
        if current_epoch < data.unstake_period_end {
            return Err(StakeError::UnstakePeriodNotEnded);
        }
        if data.unstake_period_end == 0 {
            return Err(StakeError::InvalidUnstakePeriodEnd);
        }
        if data.pending_rewards > self.stake_vault {
            return Err(StakeError::InsufficientFunds);
        }
        self.stake_vault = self.stake_vault - data.pending_rewards;
        let paid = FungibleBucket { resource: self.staking_token, amount: data.pending_rewards };
        if data.amount_staked == 0 {
            proof {
                lemma_total_owed_update(self@.receipts, id as int, None);
            }
            self.nft_receipts.burn(id);
            Ok((None, Some(paid)))
        } else {
            let cleared = NFTReceiptData { unstake_period_end: 0, pending_rewards: 0, ..data };
            proof {
                lemma_total_owed_update(self@.receipts, id as int, Some(cleared));
            }
            self.nft_receipts.update(id, cleared);
            Ok((Some(receipt), Some(paid)))
        }
    }

    /// How long the request recorded by `receipt` still has to wait at
    /// `current_epoch`.
    pub fn check_unstake_status(&self, receipt: &NonFungibleBucket, current_epoch: u64) -> (r: Result<
        UnstakeCountdown,
        StakeError,
    >)
        ensures
            self@.contract_status == Status::Off ==> r == Err::<UnstakeCountdown, StakeError>(
                StakeError::ContractNotActive,
            ),
            self@.contract_status == Status::On ==> match receipt_error(
                self@.receipts,
                self@.receipt_token,
                receipt@,
            ) {
                Some(e) => r == Err::<UnstakeCountdown, StakeError>(e),
                None => r == Ok::<UnstakeCountdown, StakeError>(
                    countdown_of(
                        (self@.receipts[receipt@.1[0] as int]->0).unstake_period_end,
                        current_epoch,
                    ),
                ),
            },
    {
        if self.contract_status == Status::Off {
            return Err(StakeError::ContractNotActive);
        }
        let (_, data) = self.nft_receipts.check_receipt(self.nft_receipt_resource, receipt)?;
        Ok(unstake_countdown(data.unstake_period_end, current_epoch))
    }

    /// Sets the unstake period to `new_unstake_period` epochs.
    pub fn update_unstake_period(&mut self, new_unstake_period: u64) -> (r: Result<(), StakeError>)
        requires
            old(self).wf(),
        ensures
            final(self).wf(),
            old(self)@.contract_status == Status::Off ==> r == Err::<(), StakeError>(
                StakeError::ContractNotActive,
            ),
            old(self)@.contract_status == Status::On && new_unstake_period == 0 ==> r == Err::<
                (),
                StakeError,
            >(StakeError::ZeroUnstakePeriod),
            old(self)@.contract_status == Status::On && new_unstake_period > 0
                && new_unstake_period == old(self)@.unstake_period ==> r == Err::<(), StakeError>(
                StakeError::UnstakePeriodUnchanged,
            ),
            r is Err ==> final(self)@ == old(self)@,
            r is Ok ==> final(self)@ == (ReceiptStakeView {
                unstake_period: new_unstake_period as int,
                ..old(self)@
            }),
            old(self)@.contract_status == Status::On && new_unstake_period > 0
                && new_unstake_period != old(self)@.unstake_period ==> r is Ok,
    {
        if self.contract_status == Status::Off {
            return Err(StakeError::ContractNotActive);
        }
        if new_unstake_period == 0 {
            return Err(StakeError::ZeroUnstakePeriod);
        }
        if new_unstake_period == self.unstake_period {
            return Err(StakeError::UnstakePeriodUnchanged);
        }
        self.unstake_period = new_unstake_period;
        Ok(())
    }

    /// Flips the contract flag.
    pub fn emergency_switch(&mut self)
        requires
            old(self).wf(),
        ensures
            final(self).wf(),
            final(self)@ == (ReceiptStakeView {
                contract_status: old(self)@.contract_status.flipped(),
                ..old(self)@
            }),
    {
        self.contract_status = self.contract_status.toggled();
    }

    /// Withdraws all that `receipt` records, staked and pending, while the
    /// contract is `Off`, and burns the receipt.
    pub fn emergency_withdraw(&mut self, receipt: NonFungibleBucket) -> (r: Result<
        FungibleBucket,
        StakeError,
    >)
        requires
            old(self).wf(),
        ensures
            final(self).wf(),
            match old(self)@.emergency_outcome(receipt@) {
                Ok((s, paid)) => final(self)@ == s && r == Ok::<FungibleBucket, StakeError>(
                    (FungibleBucket { resource: s.staking_token, amount: paid as u128 }),
                ),
                Err(e) => final(self)@ == old(self)@ && r == Err::<FungibleBucket, StakeError>(e),
            },
    {
        if self.contract_status == Status::On {
            return Err(StakeError::ContractActive);
        }
        let (id, data) = self.nft_receipts.check_receipt(self.nft_receipt_resource, &receipt)?;
        let total = match data.amount_staked.checked_add(data.pending_rewards) {
            None => return Err(StakeError::Overflow),
            Some(t) => t,
        };
        if total > self.stake_vault {
            return Err(StakeError::InsufficientFunds);
        }
        proof {
            lemma_total_owed_update(self@.receipts, id as int, None);
        }
        self.stake_vault = self.stake_vault - total;
        self.nft_receipts.burn(id);
        Ok(FungibleBucket { resource: self.staking_token, amount: total })
    }
}

} // verus!
