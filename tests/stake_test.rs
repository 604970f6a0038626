use tokenomics::dexter_stake::DeXterStake;
use tokenomics::resource::{FungibleBucket, GlobalAddress, ResourceAddress};

const XRD: ResourceAddress = ResourceAddress(1);
const SYNTH: ResourceAddress = ResourceAddress(2);
const POOL_UNIT: ResourceAddress = ResourceAddress(3);
const RECEIPT: ResourceAddress = ResourceAddress(4);
/// One whole token, in the smallest unit of an asset with 18 decimals.
const ONE: u128 = 1_000_000_000_000_000_000;

fn new_stake(unstake_period: u64) -> DeXterStake {
    DeXterStake::instantiate_stake(
        XRD,
        unstake_period,
        SYNTH,
        POOL_UNIT,
        RECEIPT,
        ResourceAddress(5),
        ResourceAddress(6),
        ResourceAddress(7),
        GlobalAddress(8),
    )
    .unwrap()
}

#[test]
fn dexter_stake_stake_test() {
    let mut dexter_stake = new_stake(7);
    let pool_units = dexter_stake
        .stake(FungibleBucket { resource: XRD, amount: 1000 * ONE })
        .unwrap();
    assert_eq!(pool_units.amount, 1000 * ONE);
    assert_eq!(pool_units.resource, POOL_UNIT);
    println!("Pool Units: {:?}", pool_units.amount);
}
