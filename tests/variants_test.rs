use tokenomics::countdown::UnstakeCountdown;
use tokenomics::error::StakeError;
use tokenomics::receipt_stake;
use tokenomics::resource::{FungibleBucket, GlobalAddress, NonFungibleBucket, ResourceAddress};
use tokenomics::synth_stake;

const TOKEN: ResourceAddress = ResourceAddress(1);
const SYNTH: ResourceAddress = ResourceAddress(2);
const POOL_UNIT: ResourceAddress = ResourceAddress(3);
const RECEIPT: ResourceAddress = ResourceAddress(4);
const OWNER: ResourceAddress = ResourceAddress(5);
const ADMIN: ResourceAddress = ResourceAddress(6);

fn token(amount: u128) -> FungibleBucket {
    FungibleBucket { resource: TOKEN, amount }
}

fn units(amount: u128) -> FungibleBucket {
    FungibleBucket { resource: POOL_UNIT, amount }
}

fn receipt(id: u64) -> NonFungibleBucket {
    NonFungibleBucket { resource: RECEIPT, ids: vec![id] }
}

fn new_synth() -> synth_stake::Stake {
    synth_stake::Stake::instantiate_stake(TOKEN, 7, SYNTH, POOL_UNIT, RECEIPT, OWNER, GlobalAddress(9))
        .unwrap()
}

fn new_simple() -> receipt_stake::Stake {
    receipt_stake::Stake::instantiate_stake(OWNER, ADMIN, 7, TOKEN, RECEIPT).unwrap()
}

#[test]
fn synth_regular_withdrawal_after_the_period() {
    let mut s = new_synth();
    let u = s.stake(token(1000)).unwrap();
    assert_eq!(u.amount, 1000);
    let r = s.unstake(u, 0).unwrap();
    assert_eq!(s.withdraw_stake(receipt(0), 6).err(), Some(StakeError::UnstakePeriodNotEnded));
    assert_eq!(s.check_unstake_status(&r, 0), Ok(UnstakeCountdown::Minutes { epochs_left: 7, minutes: 35 }));
    assert_eq!(s.withdraw_stake(r, 7).unwrap().amount, 1000);
    assert_eq!(s.withdraw_stake(receipt(0), 8).err(), Some(StakeError::UnknownReceipt));
}

#[test]
fn synth_emergency_paths_need_contract_off() {
    let mut s = new_synth();
    let u = s.stake(token(1000)).unwrap();
    assert_eq!(
        s.emergency_withdraw_with_pool_units(units(10)).err(),
        Some(StakeError::ContractActive)
    );
    assert_eq!(
        s.emergency_withdraw_pool_bypass_with_nft_claim_receipt(receipt(0)).err(),
        Some(StakeError::ContractActive)
    );
    s.emergency_switch();
    assert_eq!(s.withdraw_stake(receipt(0), 100).err(), Some(StakeError::ContractNotActive));
    assert_eq!(s.emergency_withdraw_with_pool_units(units(0)).err(), Some(StakeError::ZeroAmount));
    assert_eq!(s.emergency_withdraw_with_pool_units(u).unwrap().amount, 1000);
    assert_eq!(s.show_vault_amount(), 0);
}

#[test]
fn synth_emergency_with_receipt_waives_maturity() {
    let mut s = new_synth();
    let u = s.stake(token(1000)).unwrap();
    let r = s.unstake(u, 0).unwrap();
    s.deposit(token(500)).unwrap();
    s.emergency_switch();
    assert_eq!(s.emergency_withdraw_with_nft_claim_receipt(r).unwrap().amount, 1500);
}

#[test]
fn synth_pool_bypass_paths() {
    let mut s = new_synth();
    let u1 = s.stake(token(1000)).unwrap();
    let u2 = s.stake(token(1000)).unwrap();
    let r = s.unstake(u1, 0).unwrap();
    s.emergency_switch();
    assert_eq!(s.emergency_withdraw_pool_bypass_with_nft_claim_receipt(r).unwrap().amount, 1000);
    assert_eq!(s.emergency_withdraw_pool_bypass_with_pool_units(u2).unwrap().amount, 1000);
    assert_eq!(s.show_redemption_value(1000), Ok(2000));
    assert_eq!(s.show_redemption_value(0), Err(StakeError::ZeroAmount));
    assert_eq!(s.show_vault_amount(), 2000);
}

#[test]
fn synth_configuration() {
    let mut s = new_synth();
    assert_eq!(s.update_unstake_period(7), Err(StakeError::UnstakePeriodUnchanged));
    assert_eq!(s.update_unstake_period(3), Ok(()));
    s.emergency_switch();
    assert_eq!(s.update_unstake_period(4), Err(StakeError::ContractNotActive));
    assert_eq!(s.deposit(token(4)), Err(StakeError::ContractNotActive));
    assert!(synth_stake::Stake::instantiate_stake(TOKEN, 0, SYNTH, POOL_UNIT, RECEIPT, OWNER, GlobalAddress(9)).is_err());
}

#[test]
fn simple_stake_unstake_withdraw() {
    let mut s = new_simple();
    let r = s.stake(token(1000)).unwrap();
    assert_eq!(r.ids, vec![0]);
    let r = s.add_stake(r, token(500)).unwrap();
    assert_eq!(s.unstake(2000, receipt(0), 0).err(), Some(StakeError::InvalidAmount));
    let r = s.unstake(600, r, 2).unwrap();
    assert_eq!(s.unstake(100, receipt(0), 2).err(), Some(StakeError::UnstakePending));
    assert_eq!(
        s.withdraw_stake(receipt(0), 8).err(),
        Some(StakeError::UnstakePeriodNotEnded)
    );
    assert_eq!(s.check_unstake_status(&r, 2), Ok(UnstakeCountdown::Minutes { epochs_left: 7, minutes: 35 }));
    let (back, paid) = s.withdraw_stake(r, 9).unwrap();
    assert_eq!(paid.unwrap().amount, 600);
    let r = back.unwrap();
    assert_eq!(
        s.withdraw_stake(receipt(0), 20).err(),
        Some(StakeError::InvalidUnstakePeriodEnd)
    );
    let r = s.unstake(900, r, 10).unwrap();
    let (back, paid) = s.withdraw_stake(r, 17).unwrap();
    assert!(back.is_none());
    assert_eq!(paid.unwrap().amount, 900);
    assert_eq!(s.withdraw_stake(receipt(0), 20).err(), Some(StakeError::UnknownReceipt));
}

#[test]
fn simple_emergency_withdraw() {
    let mut s = new_simple();
    let r = s.stake(token(1000)).unwrap();
    let r = s.unstake(400, r, 0).unwrap();
    assert_eq!(s.emergency_withdraw(receipt(0)).err(), Some(StakeError::ContractActive));
    s.emergency_switch();
    assert_eq!(s.stake(token(5)).err(), Some(StakeError::ContractNotActive));
    assert_eq!(s.emergency_withdraw(r).unwrap().amount, 1000);
    assert_eq!(s.emergency_withdraw(receipt(0)).err(), Some(StakeError::UnknownReceipt));
    s.emergency_switch();
    assert_eq!(s.update_unstake_period(0), Err(StakeError::ZeroUnstakePeriod));
    assert_eq!(s.update_unstake_period(9), Ok(()));
}

#[test]
fn simple_receipt_checks() {
    let mut s = new_simple();
    let r = s.stake(token(10)).unwrap();
    assert_eq!(s.add_stake(r, token(0)).err(), Some(StakeError::ZeroAmount));
    let wrong = NonFungibleBucket { resource: TOKEN, ids: vec![0] };
    assert_eq!(s.add_stake(wrong, token(1)).err(), Some(StakeError::InvalidReceipt));
    assert_eq!(s.unstake(0, receipt(0), 0).err(), Some(StakeError::ZeroAmount));
    let two = NonFungibleBucket { resource: RECEIPT, ids: vec![0, 0] };
    assert_eq!(s.unstake(1, two, 0).err(), Some(StakeError::WrongReceiptCount));
    assert_eq!(s.unstake(1, receipt(0), u64::MAX).err(), Some(StakeError::Overflow));
    assert_eq!(s.stake(FungibleBucket { resource: POOL_UNIT, amount: 1 }).err(), Some(StakeError::InvalidStakeToken));
}
