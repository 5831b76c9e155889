use vstd::prelude::*;

use crate::orders::TradeOrder;
use crate::registry::Asset;
use crate::types::{AssetType, Key};

verus! {

/// The record store: an arena of asset records and an arena of trade orders,
/// each record addressed by its position.
///
/// An asset also has a derived address, the identity that created it together
/// with its type; `asset_creators[i]` is the creator of `assets[i]`. No two
/// assets share a derived address.
pub struct Ledger {
    pub assets: Vec<Asset>,
    pub asset_creators: Vec<Key>,
    pub orders: Vec<TradeOrder>,
}

impl Ledger {
    /// The store's invariant: one creator per asset, derived addresses unique.
    pub open spec fn wf(&self) -> bool {
        &&& self.asset_creators@.len() == self.assets@.len()
        &&& forall|i: int, j: int|
            0 <= i < j < self.assets@.len() ==> !(#[trigger] self.asset_creators@[i]@
                == #[trigger] self.asset_creators@[j]@ && self.assets@[i].asset_type
                == self.assets@[j].asset_type)
    }

    /// Whether asset `i` stands at the address derived from `creator` and `asset_type`.
    pub open spec fn at_address(&self, i: int, creator: Seq<u8>, asset_type: AssetType) -> bool {
        &&& 0 <= i < self.assets@.len()
        &&& self.asset_creators@[i]@ == creator
        &&& self.assets@[i].asset_type == asset_type
    }

    /// Whether an asset already stands at the address derived from `creator` and `asset_type`.
    pub open spec fn address_taken(&self, creator: Seq<u8>, asset_type: AssetType) -> bool {
        exists|i: int| self.at_address(i, creator, asset_type)
    }

    /// An empty store.
    pub fn new() -> (r: Ledger)
        ensures
            r.wf(),
            r.assets@.len() == 0,
            r.orders@.len() == 0,
    {
        Ledger { assets: Vec::new(), asset_creators: Vec::new(), orders: Vec::new() }
    }

    /// Number of asset records.
    pub fn num_assets(&self) -> (r: usize)
        ensures
            r == self.assets@.len(),
    {
        self.assets.len()
    }

    /// Number of trade orders.
    pub fn num_orders(&self) -> (r: usize)
        ensures
            r == self.orders@.len(),
    {
        self.orders.len()
    }

    /// Reads asset record `id`.
    pub fn asset(&self, id: usize) -> (r: &Asset)
        requires
            id < self.assets@.len(),
        ensures
            *r == self.assets@[id as int],
    {
        &self.assets[id]
    }

    /// Reads trade order `id`.
    pub fn order(&self, id: usize) -> (r: &TradeOrder)
        requires
            id < self.orders@.len(),
        ensures
            *r == self.orders@[id as int],
    {
        &self.orders[id]
    }

    /// The position of the asset at the address derived from `creator` and
    /// `asset_type`, if one stands there.
    pub fn find_asset(&self, creator: &Key, asset_type: AssetType) -> (r: Option<usize>)
        requires
            self.wf(),
        ensures
            r is None <==> !self.address_taken(creator@, asset_type),
            r matches Some(i) ==> self.at_address(i as int, creator@, asset_type),
    {
        let mut i: usize = 0;
        while i < self.assets.len()
            invariant
                self.wf(),
                i <= self.assets@.len(),
                forall|j: int| 0 <= j < i ==> !self.at_address(j, creator@, asset_type),
            decreases self.assets@.len() - i,
        {
            if self.asset_creators[i].same(creator) && self.assets[i].asset_type == asset_type {
                assert(self.at_address(i as int, creator@, asset_type));
                return Some(i);
            }
            i = i + 1;
        }
        None
    }
}

} // verus!
