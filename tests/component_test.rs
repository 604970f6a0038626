use tokenomics::countdown::{unstake_countdown, UnstakeCountdown};
use tokenomics::dexter_stake::DeXterStake;
use tokenomics::error::StakeError;
use tokenomics::pool::PoolLedger;
use tokenomics::resource::{FungibleBucket, GlobalAddress, NonFungibleBucket, ResourceAddress};
use tokenomics::route::{withdraw_route, WithdrawPath};
use tokenomics::status::Status;

const XRD: ResourceAddress = ResourceAddress(1);
const SYNTH: ResourceAddress = ResourceAddress(2);
const POOL_UNIT: ResourceAddress = ResourceAddress(3);
const RECEIPT: ResourceAddress = ResourceAddress(4);
const OWNER: ResourceAddress = ResourceAddress(5);
const SUPER_ADMIN: ResourceAddress = ResourceAddress(6);
const ADMIN: ResourceAddress = ResourceAddress(7);
const DAPP: GlobalAddress = GlobalAddress(8);

fn new_stake(unstake_period: u64) -> DeXterStake {
    DeXterStake::instantiate_stake(
        XRD, unstake_period, SYNTH, POOL_UNIT, RECEIPT, OWNER, SUPER_ADMIN, ADMIN, DAPP,
    )
    .unwrap()
}

fn xrd(amount: u128) -> FungibleBucket {
    FungibleBucket { resource: XRD, amount }
}

fn units(amount: u128) -> FungibleBucket {
    FungibleBucket { resource: POOL_UNIT, amount }
}

fn receipt(id: u64) -> NonFungibleBucket {
    NonFungibleBucket { resource: RECEIPT, ids: vec![id] }
}

#[test]
fn instantiate_refuses_zero_period() {
    let r = DeXterStake::instantiate_stake(
        XRD, 0, SYNTH, POOL_UNIT, RECEIPT, OWNER, SUPER_ADMIN, ADMIN, DAPP,
    );
    assert_eq!(r.err(), Some(StakeError::ZeroUnstakePeriod));
}

#[test]
fn instantiate_starts_empty_and_on() {
    let s = new_stake(7).get_state();
    assert_eq!(s.contract_status, Status::On);
    assert_eq!(s.pool_status, Status::On);
    assert_eq!(s.stake_vault_actual, 0);
    assert_eq!(s.pool_unit_supply, 0);
    assert_eq!(s.unstake_period, 7);
    assert_eq!(s.owner_badge, OWNER);
}

#[test]
fn stake_errors() {
    let mut s = new_stake(7);
    assert_eq!(s.stake(xrd(0)).err(), Some(StakeError::ZeroAmount));
    assert_eq!(s.stake(units(5)).err(), Some(StakeError::InvalidStakeToken));
    s.stake(xrd(u128::MAX)).unwrap();
    assert_eq!(s.stake(xrd(1)).err(), Some(StakeError::Overflow));
    assert_eq!(s.get_state().stake_vault_actual, u128::MAX);
}

#[test]
fn maturity_gate_is_boundary_inclusive() {
    let mut s = new_stake(7);
    let u = s.stake(xrd(1000)).unwrap();
    let r = s.unstake(u, 3).unwrap();
    assert_eq!(r.ids, vec![0]);
    assert_eq!(
        s.withdraw_stake(None, Some(receipt(0)), 9).err(),
        Some(StakeError::UnstakePeriodNotEnded)
    );
    let out = s.withdraw_stake(None, Some(r), 10).unwrap();
    assert_eq!(out.amount, 1000);
    assert_eq!(
        s.withdraw_stake(None, Some(receipt(0)), 10).err(),
        Some(StakeError::UnknownReceipt)
    );
    let st = s.get_state();
    assert_eq!(st.stake_vault_actual, 0);
    assert_eq!(st.stake_vault_lp_token, 0);
    assert_eq!(st.stake_pool_synth_supply, 0);
}

#[test]
fn countdown_reports_epochs_left() {
    let mut s = new_stake(2000);
    let u = s.stake(xrd(10)).unwrap();
    let r = s.unstake(u, 0).unwrap();
    assert_eq!(
        s.check_unstake_status(&r, 0),
        Ok(UnstakeCountdown::Days { epochs_left: 2000, days: 6 })
    );
    assert_eq!(s.check_unstake_status(&r, 2000), Ok(UnstakeCountdown::Ready));
    let wrong = NonFungibleBucket { resource: POOL_UNIT, ids: vec![0] };
    assert_eq!(s.check_unstake_status(&wrong, 0), Err(StakeError::InvalidReceipt));
}

#[test]
fn countdown_formula() {
    assert_eq!(unstake_countdown(100, 0), UnstakeCountdown::Hours { epochs_left: 100, hours: 8 });
    assert_eq!(unstake_countdown(2000, 0), UnstakeCountdown::Days { epochs_left: 2000, days: 6 });
    assert_eq!(unstake_countdown(5, 0), UnstakeCountdown::Minutes { epochs_left: 5, minutes: 25 });
    assert_eq!(unstake_countdown(5, 5), UnstakeCountdown::Ready);
    assert_eq!(unstake_countdown(5, 9), UnstakeCountdown::Ready);
    assert_eq!(unstake_countdown(864, 0), UnstakeCountdown::Days { epochs_left: 864, days: 3 });
    assert_eq!(unstake_countdown(863, 0), UnstakeCountdown::Hours { epochs_left: 863, hours: 71 });
    assert_eq!(
        unstake_countdown(u64::MAX, 0),
        UnstakeCountdown::Minutes { epochs_left: u64::MAX, minutes: 0 }
    );
}

#[test]
fn receipt_errors() {
    let mut s = new_stake(7);
    let u = s.stake(xrd(1000)).unwrap();
    s.unstake(units(400), 0).unwrap();
    let two = NonFungibleBucket { resource: RECEIPT, ids: vec![0, 1] };
    assert_eq!(s.withdraw_stake(None, Some(two), 20).err(), Some(StakeError::WrongReceiptCount));
    let wrong = NonFungibleBucket { resource: XRD, ids: vec![0] };
    assert_eq!(s.withdraw_stake(None, Some(wrong), 20).err(), Some(StakeError::InvalidReceipt));
    assert_eq!(s.withdraw_stake(None, Some(receipt(9)), 20).err(), Some(StakeError::UnknownReceipt));
    assert_eq!(s.unstake(xrd(5), 0).err(), Some(StakeError::InvalidPoolUnits));
    assert_eq!(s.unstake(units(0), 0).err(), Some(StakeError::ZeroAmount));
    assert_eq!(s.unstake(units(u.amount + 1), 0).err(), Some(StakeError::InsufficientFunds));
    assert_eq!(s.unstake(units(1), u64::MAX).err(), Some(StakeError::Overflow));
}

#[test]
fn status_matrix_inputs() {
    let mut s = new_stake(7);
    let u = s.stake(xrd(1000)).unwrap();
    s.unstake(units(500), 0).unwrap();
    assert_eq!(s.withdraw_stake(Some(units(1)), None, 20).err(), Some(StakeError::InvalidWithdrawInput));
    assert_eq!(s.withdraw_stake(None, None, 20).err(), Some(StakeError::InvalidWithdrawInput));
    assert_eq!(
        s.withdraw_stake(Some(units(1)), Some(receipt(0)), 20).err(),
        Some(StakeError::InvalidWithdrawInput)
    );
    s.emergency_switch(true, false).unwrap();
    assert_eq!(s.withdraw_stake(None, None, 20).err(), Some(StakeError::InvalidWithdrawInput));
    assert_eq!(
        s.withdraw_stake(Some(units(0)), None, 20).err(),
        Some(StakeError::ZeroAmount)
    );
    assert_eq!(s.withdraw_stake(Some(xrd(5)), None, 20).err(), Some(StakeError::InvalidPoolUnits));
    assert_eq!(s.stake(xrd(5)).err(), Some(StakeError::ContractNotActive));
    s.emergency_switch(false, true).unwrap();
    assert_eq!(
        s.withdraw_stake(Some(units(1)), Some(receipt(0)), 20).err(),
        Some(StakeError::InvalidWithdrawInput)
    );
    assert_eq!(u.amount, 1000);
}

#[test]
fn switch_refuses_pool_off_with_contract_on() {
    let mut s = new_stake(7);
    assert_eq!(s.emergency_switch(false, true).err(), Some(StakeError::InvalidStatusCombination));
    assert_eq!(s.get_state().pool_status, Status::On);
    s.emergency_switch(true, true).unwrap();
    assert_eq!(s.emergency_switch(true, false).err(), Some(StakeError::InvalidStatusCombination));
    assert_eq!(s.get_state().contract_status, Status::Off);
    s.emergency_switch(true, true).unwrap();
    assert_eq!(s.get_state().contract_status, Status::On);
    assert_eq!(s.get_state().pool_status, Status::On);
}

#[test]
fn route_table() {
    let (on, off) = (Status::On, Status::Off);
    assert_eq!(withdraw_route(on, on, false, true), Ok(WithdrawPath::Regular));
    assert_eq!(withdraw_route(on, on, true, false), Err(StakeError::InvalidWithdrawInput));
    assert_eq!(withdraw_route(off, on, false, true), Ok(WithdrawPath::EarlyWithReceipt));
    assert_eq!(withdraw_route(off, on, true, false), Ok(WithdrawPath::EarlyWithPoolUnits));
    assert_eq!(withdraw_route(off, off, false, true), Ok(WithdrawPath::BypassWithReceipt));
    assert_eq!(withdraw_route(off, off, true, false), Ok(WithdrawPath::BypassWithPoolUnits));
    assert_eq!(withdraw_route(off, off, true, true), Err(StakeError::InvalidWithdrawInput));
    for (a, b) in [(false, false), (false, true), (true, false), (true, true)] {
        assert_eq!(withdraw_route(on, off, a, b), Err(StakeError::InvalidStatusCombination));
    }
}

#[test]
fn deposit_raises_the_rate() {
    let mut s = new_stake(7);
    let u = s.stake(xrd(1000)).unwrap();
    s.deposit(xrd(500)).unwrap();
    assert_eq!(s.show_redemption_value(1000), Ok(1500));
    assert_eq!(s.show_redemption_value(0), Err(StakeError::ZeroAmount));
    assert_eq!(s.show_vault_amount(), Ok(1500));
    assert_eq!(s.deposit(xrd(0)).err(), Some(StakeError::ZeroAmount));
    let u2 = s.stake(xrd(300)).unwrap();
    assert_eq!(u2.amount, 200);
    assert_eq!(u.amount, 1000);
    let st = s.get_state();
    assert_eq!(st.stake_vault_actual, 1800);
    assert_eq!(st.stake_pool_synth_supply, 1800);
    assert_eq!(st.pool_vault_amount, 1800);
    assert_eq!(st.pool_unit_supply, 1200);
}

#[test]
fn snapshot_survives_rate_change() {
    let mut s = new_stake(7);
    let u = s.stake(xrd(1000)).unwrap();
    let r = s.unstake(u, 0).unwrap();
    s.deposit(xrd(500)).unwrap();
    assert_eq!(s.show_redemption_value(1000), Ok(1500));
    s.emergency_switch(true, true).unwrap();
    let out = s.withdraw_stake(None, Some(r), 1).unwrap();
    assert_eq!(out.amount, 1000);
    let st = s.get_state();
    assert_eq!(st.stake_vault_actual, 500);
    assert_eq!(st.stake_vault_lp_token, 1000);
    assert_eq!(st.pool_vault_amount, 1500);
}

#[test]
fn early_exit_pays_the_live_rate() {
    let mut s = new_stake(7);
    let u = s.stake(xrd(1000)).unwrap();
    let r = s.unstake(u, 0).unwrap();
    s.deposit(xrd(500)).unwrap();
    s.emergency_switch(true, false).unwrap();
    let out = s.withdraw_stake(None, Some(r), 0).unwrap();
    assert_eq!(out.amount, 1500);
    assert_eq!(s.get_state().stake_vault_actual, 0);
}

#[test]
fn bypass_with_units_keeps_them() {
    let mut s = new_stake(7);
    let u = s.stake(xrd(1000)).unwrap();
    s.emergency_switch(true, true).unwrap();
    let out = s.withdraw_stake(Some(units(400)), None, 0).unwrap();
    assert_eq!(out.amount, 400);
    let st = s.get_state();
    assert_eq!(st.stake_vault_lp_token, 400);
    assert_eq!(st.pool_unit_supply, 1000);
    assert_eq!(st.stake_vault_actual, 600);
    assert_eq!(
        s.withdraw_stake(Some(units(u.amount + 1)), None, 0).err(),
        Some(StakeError::InsufficientFunds)
    );
}

#[test]
fn bypass_refuses_more_than_the_reserve() {
    let mut s = new_stake(7);
    let u = s.stake(xrd(1000)).unwrap();
    let r = s.unstake(u, 0).unwrap();
    s.emergency_switch(true, true).unwrap();
    s.withdraw_stake(Some(units(1000)), None, 0).unwrap();
    assert_eq!(s.withdraw_stake(None, Some(r), 0).err(), Some(StakeError::InsufficientFunds));
    assert_eq!(s.get_state().stake_vault_actual, 0);
}

#[test]
fn conservation_over_a_sequence() {
    let mut s = new_stake(3);
    let a = s.stake(xrd(700)).unwrap();
    let b = s.stake(xrd(300)).unwrap();
    s.deposit(xrd(100)).unwrap();
    let r = s.unstake(a, 1).unwrap();
    let paid1 = s.withdraw_stake(None, Some(r), 4).unwrap().amount;
    s.emergency_switch(true, false).unwrap();
    let paid2 = s.withdraw_stake(Some(b), None, 4).unwrap().amount;
    let st = s.get_state();
    assert_eq!(paid1, 770);
    assert_eq!(paid2, 330);
    assert_eq!(st.stake_vault_actual + paid1 + paid2, 1100);
    assert_eq!(st.stake_pool_synth_supply, st.pool_vault_amount);
}

#[test]
fn update_unstake_period_rules() {
    let mut s = new_stake(7);
    assert_eq!(s.update_unstake_period(0), Err(StakeError::ZeroUnstakePeriod));
    assert_eq!(s.update_unstake_period(7), Err(StakeError::UnstakePeriodUnchanged));
    s.update_unstake_period(10).unwrap();
    assert_eq!(s.get_state().unstake_period, 10);
    let u = s.stake(xrd(5)).unwrap();
    s.unstake(u, 1).unwrap();
    assert_eq!(s.check_unstake_status(&receipt(0), 1), Ok(UnstakeCountdown::Minutes { epochs_left: 10, minutes: 50 }));
    s.emergency_switch(true, false).unwrap();
    assert_eq!(s.update_unstake_period(12), Err(StakeError::ContractNotActive));
}

#[test]
fn pool_off_refuses_reporting() {
    let mut s = new_stake(7);
    s.emergency_switch(true, true).unwrap();
    assert_eq!(s.show_vault_amount(), Err(StakeError::ContractNotActive));
    assert_eq!(s.show_redemption_value(5), Err(StakeError::ContractNotActive));
    s.emergency_switch(false, true).unwrap();
    assert_eq!(s.show_vault_amount(), Err(StakeError::ContractNotActive));
    assert_eq!(s.deposit(xrd(5)), Err(StakeError::ContractNotActive));
}

#[test]
fn role_and_account_updates() {
    let mut s = new_stake(7);
    assert_eq!(s.update_dapp_definition_account(DAPP), Err(StakeError::UnchangedValue));
    s.update_dapp_definition_account(GlobalAddress(9)).unwrap();
    assert_eq!(s.get_state().dapp_definition_address, GlobalAddress(9));
    assert_eq!(
        s.update_role_badge(Some(ResourceAddress(20)), Some(SUPER_ADMIN), None),
        Err(StakeError::UnchangedValue)
    );
    assert_eq!(s.get_state().owner_badge, OWNER);
    s.update_role_badge(None, Some(ResourceAddress(21)), Some(ResourceAddress(22))).unwrap();
    let st = s.get_state();
    assert_eq!(st.owner_badge, OWNER);
    assert_eq!(st.super_admin_badge, ResourceAddress(21));
    assert_eq!(st.admin_badge, ResourceAddress(22));
}

#[test]
fn pool_ledger_formulas() {
    let mut p = PoolLedger::new();
    assert_eq!(p.contribute(1000), Ok(1000));
    p.protected_deposit(500).unwrap();
    assert_eq!(p.get_redemption_value(10), Ok(15));
    assert_eq!(p.contribute(300), Ok(200));
    assert_eq!(p.redeem(200), Ok(300));
    assert_eq!(p.get_vault_amount(), 1500);
    assert_eq!(p.get_supply(), 1000);
    assert_eq!(p.get_redemption_value(1001), Err(StakeError::InsufficientFunds));
    assert_eq!(p.get_redemption_value(3), Ok(4));
    assert_eq!(p.protected_deposit(u128::MAX), Err(StakeError::Overflow));
}

#[test]
fn pool_ledger_handles_wide_products() {
    let one: u128 = 1_000_000_000_000_000_000;
    let mut p = PoolLedger::new();
    assert_eq!(p.contribute(3_000_000 * one), Ok(3_000_000 * one));
    assert_eq!(p.contribute(1_000_000 * one), Ok(1_000_000 * one));
    p.protected_deposit(400_000 * one).unwrap();
    assert_eq!(p.get_redemption_value(1_000_000 * one), Ok(1_100_000 * one));
    assert_eq!(p.get_redemption_value(4_000_000 * one), Ok(4_400_000 * one));
    assert_eq!(p.get_redemption_value(1), Ok(1));
    assert_eq!(p.contribute(u128::MAX - 4_400_000 * one + 1), Err(StakeError::Overflow));
    assert_eq!(p.get_supply(), 4_000_000 * one);
    assert_eq!(p.redeem(4_000_000 * one), Ok(4_400_000 * one));
    assert_eq!(p.get_vault_amount(), 0);
}
