use vstd::prelude::*;

verus! {

/// The address of a resource: an asset, a pool's units, a badge or a kind
/// of claim receipt.
#[derive(Clone, Copy, Debug, PartialEq, Eq, Structural)]
pub struct ResourceAddress(pub u64);

/// The address of an account or a component.
#[derive(Clone, Copy, Debug, PartialEq, Eq, Structural)]
pub struct GlobalAddress(pub u64);

/// Some amount of one fungible resource, counted in its smallest unit.
#[derive(Clone, Copy, Debug, PartialEq, Eq, Structural)]
pub struct FungibleBucket {
    pub resource: ResourceAddress,
    pub amount: u128,
}

/// Some non-fungible items of one resource, each known by its local id.
#[derive(Debug)]
pub struct NonFungibleBucket {
    pub resource: ResourceAddress,
    pub ids: Vec<u64>,
}

impl View for NonFungibleBucket {
    type V = (ResourceAddress, Seq<u64>);

    open spec fn view(&self) -> (ResourceAddress, Seq<u64>) {
        (self.resource, self.ids@)
    }
}

} // verus!

verus! {

/// The view of presented claim receipts, if any were presented.
pub open spec fn receipts_view(o: Option<NonFungibleBucket>) -> Option<(ResourceAddress, Seq<u64>)> {
    match o {
        Some(b) => Some(b@),
        None => None,
    }
}

} // verus!
