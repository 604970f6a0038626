use vstd::prelude::*;

use crate::error::StakeError;
use crate::resource::{NonFungibleBucket, ResourceAddress};

verus! {

/// What a claim receipt records when pool units are unstaked.
#[derive(Clone, Copy, Debug, PartialEq, Eq, Structural)]
pub struct NFTClaimReceiptData {
    /// The staked asset the claim is paid in.
    pub stake_token_actual: ResourceAddress,
    /// The synthetic stand-in the pool holds.
    pub stake_pool_synth_token: ResourceAddress,
    /// The epoch from which the claim can be withdrawn normally.
    pub unstake_period_end: u64,
    /// The pool units held in escrow for the claim.
    pub pool_units: u128,
    /// What those units were worth when they were unstaked.
    pub pending_unstake_amount: u128,
}

/// The claim receipts issued so far, each under the id it was minted with.
/// Ids count up from zero and are never reused: a burned receipt stays
/// absent for good.
pub struct ClaimRegistry<T> {
    entries: Vec<Option<T>>,
}

impl<T> View for ClaimRegistry<T> {
    type V = Seq<Option<T>>;

    closed spec fn view(&self) -> Seq<Option<T>> {
        self.entries@
    }
}

/// Whether `id` names a receipt that was minted and not yet burned.
pub open spec fn is_live<T>(entries: Seq<Option<T>>, id: int) -> bool {
    0 <= id < entries.len() && entries[id] is Some
}

/// Why the presented `receipt` is not exactly one live receipt of the
/// resource `token` recorded in `entries`, if it is not.
pub open spec fn receipt_error<T>(
    entries: Seq<Option<T>>,
    token: ResourceAddress,
    receipt: (ResourceAddress, Seq<u64>),
) -> Option<StakeError> {
    if receipt.0 != token {
        Some(StakeError::InvalidReceipt)
    } else if receipt.1.len() != 1 {
        Some(StakeError::WrongReceiptCount)
    } else if !is_live(entries, receipt.1[0] as int) {
        Some(StakeError::UnknownReceipt)
    } else {
        None
    }
}

impl<T: Copy> ClaimRegistry<T> {
    /// A registry with no receipt.
    pub fn new() -> (r: ClaimRegistry<T>)
        ensures
            r@ == Seq::<Option<T>>::empty(),
    {
        ClaimRegistry { entries: Vec::new() }
    }

    /// The number of receipts minted so far, burned ones included.
    pub fn minted(&self) -> (r: u64)
        ensures
            r == self@.len(),
    {
        self.entries.len() as u64
    }

    /// Records `data` under a fresh id and returns the id.
    pub fn mint(&mut self, data: T) -> (id: u64)
        requires
            old(self)@.len() < u64::MAX,
        ensures
            id == old(self)@.len(),
            final(self)@ == old(self)@.push(Some(data)),
    {
        let id = self.entries.len() as u64;
        self.entries.push(Some(data));
        id
    }

    /// The data of receipt `id`, or `None` where it is not live.
    pub fn get(&self, id: u64) -> (r: Option<T>)
        ensures
            is_live(self@, id as int) ==> r == self@[id as int],
            !is_live(self@, id as int) ==> r is None,
    {
        if id < self.entries.len() as u64 {
            self.entries[id as usize]
        } else {
            None
        }
    }

    /// Checks that `receipt` is exactly one live receipt of the resource
    /// `token`, and gives its id and data.
    pub fn check_receipt(&self, token: ResourceAddress, receipt: &NonFungibleBucket) -> (r: Result<
        (u64, T),
        StakeError,
    >)
        ensures
            match receipt_error(self@, token, receipt@) {
                Some(e) => r == Err::<(u64, T), StakeError>(e),
                None => r == Ok::<(u64, T), StakeError>(
                    (receipt@.1[0], self@[receipt@.1[0] as int]->0),
                ),
            },
    {
        if receipt.resource != token {
            return Err(StakeError::InvalidReceipt);
        }
        if receipt.ids.len() != 1 {
            return Err(StakeError::WrongReceiptCount);
        }
        let id = receipt.ids[0];
        match self.get(id) {
            None => Err(StakeError::UnknownReceipt),
            Some(data) => Ok((id, data)),
        }
    }

    /// Replaces the data of the live receipt `id`.
    pub fn update(&mut self, id: u64, data: T)
        requires
            is_live(old(self)@, id as int),
        ensures
            final(self)@ == old(self)@.update(id as int, Some(data)),
    {
        let n = self.entries.len();
        assert(id < n);
        self.entries.set(id as usize, Some(data));
    }

    /// Burns the live receipt `id`: it is absent from then on.
    pub fn burn(&mut self, id: u64)
        requires
            is_live(old(self)@, id as int),
        ensures
            final(self)@ == old(self)@.update(id as int, None),
    {
        let n = self.entries.len();
        assert(id < n);
        self.entries.set(id as usize, None);
    }
}

} // verus!
