use vstd::prelude::*;

use crate::claims::is_live;
use crate::error::StakeError;
use crate::model::{
    lemma_escrowed_covers, lemma_escrowed_push, lemma_escrowed_update, Operation, StakeView,
};
use crate::pool::{lemma_value_within_vault, value_of};
use crate::resource::{FungibleBucket, ResourceAddress};
use crate::route::{route, WithdrawPath};
use crate::status::Status;

verus! {

/// One call moves the reserve by exactly the amount it declares.
proof fn lemma_step_conserves(s: StakeView, op: Operation)
    ensures
        s.step(op).0.reserve == s.reserve + s.step(op).1,
{
}

/// Conservation: after any sequence of calls, the reserve is what it was
/// plus all that the calls took in, less all that they paid out. Nothing
/// is created or destroyed beyond what the calls declare.
pub proof fn lemma_conservation(s: StakeView, ops: Seq<Operation>)
    ensures
        s.run(ops).reserve == s.reserve + s.net_inflow(ops),
    decreases ops.len(),
{
    if ops.len() > 0 {
        lemma_conservation(s, ops.drop_last());
        lemma_step_conserves(s.run(ops.drop_last()), ops.last());
    }
}

/// One call keeps the invariant.
pub proof fn lemma_step_keeps_inv(s: StakeView, op: Operation)
    requires
        s.inv(),
    ensures
        s.step(op).0.inv(),
{
    assert forall|u: int| 0 <= u <= s.pool_supply implies #[trigger] value_of(
        u,
        s.pool_vault,
        s.pool_supply,
    ) <= s.pool_vault by {
        lemma_value_within_vault(u, s.pool_vault, s.pool_supply);
    }
    match op {
        Operation::Unstake { units, epoch } => {
            lemma_escrowed_push(s.claims, Some(s.new_claim(units.amount as int, epoch as int)));
        },
        Operation::Withdraw { pool_units, receipt, epoch } => {
            if receipt is Some && s.receipt_error(receipt->0) is None {
                lemma_escrowed_update(s.claims, (receipt->0).1[0] as int, None);
            }
        },
        _ => {},
    }
}

/// The synthetic asset in existence equals what the pool holds, that is
/// all that was contributed to it less all that it paid out, after any
/// sequence of calls; and the other parts of the invariant hold throughout.
pub proof fn lemma_synthetic_backing(s: StakeView, ops: Seq<Operation>)
    requires
        s.inv(),
    ensures
        s.run(ops).inv(),
        s.run(ops).synth_supply == s.run(ops).pool_vault,
    decreases ops.len(),
{
    if ops.len() > 0 {
        lemma_synthetic_backing(s, ops.drop_last());
        lemma_step_keeps_inv(s.run(ops.drop_last()), ops.last());
    }
}

/// The maturity gate: with both flags `On`, a valid claim receipt presented
/// before its unstake period ends is refused; at the final epoch of the
/// period and after it, the outcome is the redemption of the claim.
pub proof fn lemma_maturity_gate(s: StakeView, receipt: (ResourceAddress, Seq<u64>), epoch: u64)
    requires
        s.contract_status == Status::On,
        s.pool_status == Status::On,
        s.receipt_error(receipt) is None,
    ensures
        ({
            let id = receipt.1[0] as int;
            let end = (s.claims[id]->0).unstake_period_end;
            &&& epoch < end ==> s.withdraw_outcome(None, Some(receipt), epoch) == Err::<
                (StakeView, int),
                StakeError,
            >(StakeError::UnstakePeriodNotEnded)
            &&& epoch >= end > 0 ==> s.withdraw_outcome(None, Some(receipt), epoch)
                == s.claim_redemption(id)
        }),
{
}

/// The maturity gate over two calls: pool units unstaked at `epoch`, while
/// the reserve still backs all synthetic asset, are refused before the
/// unstake period ends and paid, at the pool's rate, once it ends, exactly
/// at the boundary epoch.
pub proof fn lemma_unstake_then_withdraw(
    s: StakeView,
    units: FungibleBucket,
    epoch: u64,
    later: u64,
)
    requires
        s.inv(),
        s.reserve >= s.synth_supply,
        s.unstake_outcome(units, epoch) is Ok,
    ensures
        ({
            let (t, id) = s.unstake_outcome(units, epoch)->Ok_0;
            let receipt = (t.receipt_token, seq![id as u64]);
            &&& later < epoch + s.unstake_period ==> t.withdraw_outcome(None, Some(receipt), later)
                == Err::<(StakeView, int), StakeError>(StakeError::UnstakePeriodNotEnded)
            &&& later >= epoch + s.unstake_period ==> t.withdraw_outcome(
                None,
                Some(receipt),
                later,
            ) is Ok && (t.withdraw_outcome(None, Some(receipt), later)->Ok_0).1 == value_of(
                units.amount as int,
                s.pool_vault,
                s.pool_supply,
            )
        }),
{
    let (t, id) = s.unstake_outcome(units, epoch)->Ok_0;
    let receipt = (t.receipt_token, seq![id as u64]);
    assert(receipt.1[0] as int == id);
    assert(t.claims[id] == Some(s.new_claim(units.amount as int, epoch as int)));
    lemma_value_within_vault(units.amount as int, s.pool_vault, s.pool_supply);
}

/// The units of every open claim are held in escrow: redeeming a claim
/// takes them out of escrow and goes on to the pool, never refused for want
/// of escrowed units.
pub proof fn lemma_escrow_covers_claim(s: StakeView, id: int)
    requires
        s.inv(),
        is_live(s.claims, id),
    ensures
        ({
            let units = (s.claims[id]->0).pool_units as int;
            &&& units <= s.escrow
            &&& s.claim_redemption(id) == (StakeView {
                escrow: s.escrow - units,
                claims: s.claims.update(id, None),
                ..s
            }).pool_redemption(units)
        }),
{
    lemma_escrowed_covers(s.claims, id);
}

/// The status matrix: with the contract `On` and the pool `Off` every
/// withdrawal is refused; otherwise a claim receipt alone is accepted, pool
/// units alone are accepted exactly where the contract is `Off`, and both or
/// neither are refused as the wrong input.
pub proof fn lemma_status_matrix(contract: Status, pool: Status, with_units: bool, with_receipt: bool)
    ensures
        contract == Status::On && pool == Status::Off ==> route(
            contract,
            pool,
            with_units,
            with_receipt,
        ) == Err::<WithdrawPath, StakeError>(StakeError::InvalidStatusCombination),
        !(contract == Status::On && pool == Status::Off) ==> {
            &&& route(contract, pool, false, true) is Ok
            &&& (route(contract, pool, true, false) is Ok <==> contract == Status::Off)
            &&& route(contract, pool, true, true) == Err::<WithdrawPath, StakeError>(
                StakeError::InvalidWithdrawInput,
            )
            &&& route(contract, pool, false, false) == Err::<WithdrawPath, StakeError>(
                StakeError::InvalidWithdrawInput,
            )
        },
        contract == Status::On && pool == Status::On ==> route(contract, pool, true, false)
            == Err::<WithdrawPath, StakeError>(StakeError::InvalidWithdrawInput),
{
}

/// One call never alters a recorded claim: it may add claims or burn them,
/// nothing else; and the resources a component works with stay fixed.
proof fn lemma_step_keeps_claims(s: StakeView, op: Operation)
    ensures
        s.step(op).0.claims.len() >= s.claims.len(),
        s.step(op).0.receipt_token == s.receipt_token,
        forall|i: int|
            0 <= i < s.claims.len() ==> #[trigger] s.step(op).0.claims[i] == s.claims[i]
                || s.step(op).0.claims[i] is None,
{
}

/// Claims are fixed once recorded: after any sequence of calls, each claim
/// that was recorded before is unchanged or burned.
pub proof fn lemma_claims_fixed(s: StakeView, ops: Seq<Operation>)
    ensures
        s.run(ops).claims.len() >= s.claims.len(),
        s.run(ops).receipt_token == s.receipt_token,
        forall|i: int|
            0 <= i < s.claims.len() ==> #[trigger] s.run(ops).claims[i] == s.claims[i]
                || s.run(ops).claims[i] is None,
    decreases ops.len(),
{
    if ops.len() > 0 {
        let before = s.run(ops.drop_last());
        lemma_claims_fixed(s, ops.drop_last());
        lemma_step_keeps_claims(before, ops.last());
        assert forall|i: int| 0 <= i < s.claims.len() implies #[trigger] s.run(ops).claims[i]
            == s.claims[i] || s.run(ops).claims[i] is None by {
            assert(before.claims[i] == s.claims[i] || before.claims[i] is None);
            assert(before.step(ops.last()).0.claims[i] == before.claims[i]
                || before.step(ops.last()).0.claims[i] is None);
        }
    }
}

/// Snapshot fidelity: pool units unstaked at `epoch` and later withdrawn
/// through the bypass with both flags `Off`, after any calls in between,
/// are paid exactly what they were worth when unstaked, however the pool's
/// rate moved since.
pub proof fn lemma_snapshot_fidelity(
    s: StakeView,
    units: FungibleBucket,
    epoch: u64,
    ops: Seq<Operation>,
    later: u64,
)
    requires
        s.inv(),
        s.unstake_outcome(units, epoch) is Ok,
    ensures
        ({
            let (t, id) = s.unstake_outcome(units, epoch)->Ok_0;
            let u = t.run(ops);
            let receipt = (u.receipt_token, seq![id as u64]);
            u.contract_status == Status::Off && u.pool_status == Status::Off
                && u.withdraw_outcome(None, Some(receipt), later) is Ok ==> (u.withdraw_outcome(
                None,
                Some(receipt),
                later,
            )->Ok_0).1 == value_of(units.amount as int, s.pool_vault, s.pool_supply)
        }),
{
    let (t, id) = s.unstake_outcome(units, epoch)->Ok_0;
    let u = t.run(ops);
    let receipt = (u.receipt_token, seq![id as u64]);
    lemma_claims_fixed(t, ops);
    assert(receipt.1[0] as int == id);
    assert(t.claims[id] == Some(s.new_claim(units.amount as int, epoch as int)));
    if u.contract_status == Status::Off && u.pool_status == Status::Off
        && u.withdraw_outcome(None, Some(receipt), later) is Ok {
        assert(u.claims[id] == t.claims[id] || u.claims[id] is None);
        lemma_value_within_vault(units.amount as int, s.pool_vault, s.pool_supply);
    }
}

} // verus!
