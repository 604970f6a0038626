use tokenomics::dexter_stake::DeXterStake;
use tokenomics::resource::{FungibleBucket, GlobalAddress, ResourceAddress};

const XRD: ResourceAddress = ResourceAddress(1);
const SYNTH: ResourceAddress = ResourceAddress(2);
const POOL_UNIT: ResourceAddress = ResourceAddress(3);
const RECEIPT: ResourceAddress = ResourceAddress(4);
/// One whole token, in the smallest unit of an asset with 18 decimals.
const ONE: u128 = 1_000_000_000_000_000_000;

fn new_stake(unstake_period: u64) -> DeXterStake {
    DeXterStake::instantiate_stake(
        XRD,
        unstake_period,
        SYNTH,
        POOL_UNIT,
        RECEIPT,
        ResourceAddress(5),
        ResourceAddress(6),
        ResourceAddress(7),
        GlobalAddress(8),
    )
    .unwrap()
}

#[test]
fn dexter_stake_withdraw_stake_contract_on_pool_on_test() {
    let mut dexter_stake = new_stake(7);
    let pool_units = dexter_stake
        .stake(FungibleBucket { resource: XRD, amount: 1000 * ONE })
        .unwrap();
    let nft_claim_receipt = dexter_stake.unstake(pool_units, 0).unwrap();
    let xrd_bucket = dexter_stake
        .withdraw_stake(None, Some(nft_claim_receipt), 15)
        .unwrap();
    assert_eq!(xrd_bucket.amount, 1000 * ONE);
    assert_eq!(xrd_bucket.resource, XRD);
    println!("Tokens Withdrawn: {:?} (Contract On, Pool On)", xrd_bucket.amount);
}

#[test]
fn dexter_stake_withdraw_stake_contract_off_pool_on_test() {
    let mut dexter_stake = new_stake(7);
    let pool_units1 = dexter_stake
        .stake(FungibleBucket { resource: XRD, amount: 1000 * ONE })
        .unwrap();
    let pool_units2 = dexter_stake
        .stake(FungibleBucket { resource: XRD, amount: 1000 * ONE })
        .unwrap();
    let nft_claim_receipt = dexter_stake.unstake(pool_units1, 0).unwrap();
    dexter_stake.emergency_switch(true, false).unwrap();

    let xrd_bucket1 = dexter_stake
        .withdraw_stake(None, Some(nft_claim_receipt), 15)
        .unwrap();
    assert_eq!(xrd_bucket1.amount, 1000 * ONE);
    println!("Tokens Withdrawn: {:?} (Contract Off, Pool On)", xrd_bucket1.amount);

    let xrd_bucket2 = dexter_stake.withdraw_stake(Some(pool_units2), None, 15).unwrap();
    assert_eq!(xrd_bucket2.amount, 1000 * ONE);
    println!("Tokens Withdrawn: {:?} (Contract Off, Pool On)", xrd_bucket2.amount);

    dexter_stake.emergency_switch(true, false).unwrap();
}

#[test]
fn dexter_stake_withdraw_stake_contract_off_pool_off_test() {
    let mut dexter_stake = new_stake(7);
    let pool_units1 = dexter_stake
        .stake(FungibleBucket { resource: XRD, amount: 1000 * ONE })
        .unwrap();
    let pool_units2 = dexter_stake
        .stake(FungibleBucket { resource: XRD, amount: 1000 * ONE })
        .unwrap();
    let nft_claim_receipt = dexter_stake.unstake(pool_units1, 0).unwrap();
    dexter_stake.emergency_switch(true, true).unwrap();

    let xrd_bucket1 = dexter_stake
        .withdraw_stake(None, Some(nft_claim_receipt), 15)
        .unwrap();
    assert_eq!(xrd_bucket1.amount, 1000 * ONE);
    println!("Tokens Withdrawn: {:?} (Contract Off, Pool Off)", xrd_bucket1.amount);

    let xrd_bucket2 = dexter_stake.withdraw_stake(Some(pool_units2), None, 15).unwrap();
    assert_eq!(xrd_bucket2.amount, 1000 * ONE);
    println!("Tokens Withdrawn: {:?} (Contract Off, Pool Off)", xrd_bucket2.amount);

    dexter_stake.emergency_switch(true, true).unwrap();
}
