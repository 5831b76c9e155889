use vstd::prelude::*;

use crate::ledger::Ledger;
use crate::types::{AssetType, ErrorCode, Key};

verus! {

/// One physical unit of a precious material or gem under custody.
#[derive(Clone, Debug)]
pub struct Asset {
    /// Current owner: the only identity that may change the price.
    pub owner: Key,
    pub asset_type: AssetType,
    /// Weight in milligrams.
    pub weight: u64,
    /// Purity as a percentage; not range-checked.
    pub purity: u8,
    /// Free-form provenance or certificate reference.
    pub certification: String,
    /// Unit price in the smallest settlement denomination.
    pub current_price: u64,
    /// Seconds since the epoch.
    pub created_at: i64,
    /// Seconds since the epoch; zero until the first price update.
    pub last_price_update: i64,
    pub is_active: bool,
}

/// The parties to an asset creation: the identity that creates and owns it.
#[derive(Clone, Copy, Debug)]
pub struct InitializeAsset {
    pub owner: Key,
}

/// The parties to a price update: the asset record and the identity asking.
#[derive(Clone, Copy, Debug)]
pub struct UpdatePrice {
    pub asset: usize,
    pub owner: Key,
}

impl Asset {
    /// The record that creation writes.
    pub open spec fn created(
        owner: Key,
        asset_type: AssetType,
        weight: u64,
        purity: u8,
        certification: String,
        initial_price: u64,
        now: i64,
    ) -> Asset {
        Asset {
            owner,
            asset_type,
            weight,
            purity,
            certification,
            current_price: initial_price,
            created_at: now,
            last_price_update: 0,
            is_active: true,
        }
    }

    /// This record with a new price recorded at `now`.
    pub open spec fn repriced(self, new_price: u64, now: i64) -> Asset {
        Asset { current_price: new_price, last_price_update: now, ..self }
    }

    /// This record with a new owner.
    pub open spec fn transferred(self, new_owner: Key) -> Asset {
        Asset { owner: new_owner, ..self }
    }
}

impl Ledger {
    /// Whether `new` and `r` are what creating an asset in `self` gives.
    pub open spec fn asset_creation(
        self,
        new: Ledger,
        owner: Key,
        asset_type: AssetType,
        weight: u64,
        purity: u8,
        certification: String,
        initial_price: u64,
        now: i64,
        r: Result<usize, ErrorCode>,
    ) -> bool {
        if self.address_taken(owner@, asset_type) {
            r == Err::<usize, ErrorCode>(ErrorCode::DuplicateAsset) && new == self
        } else {
            &&& r is Ok
            &&& r->Ok_0 == self.assets@.len()
            &&& new.assets@ == self.assets@.push(
                Asset::created(owner, asset_type, weight, purity, certification, initial_price, now),
            )
            &&& new.asset_creators@ == self.asset_creators@.push(owner)
            &&& new.orders@ == self.orders@
        }
    }

    /// Overwrites the owner of asset `id`. Performs no authorization: only a
    /// settled trade calls it.
    pub(crate) fn transfer_ownership(&mut self, id: usize, new_owner: Key)
        requires
            old(self).wf(),
            id < old(self).assets@.len(),
        ensures
            final(self).wf(),
            final(self).assets@ == old(self).assets@.update(
                id as int,
                old(self).assets@[id as int].transferred(new_owner),
            ),
            final(self).asset_creators@ == old(self).asset_creators@,
            final(self).orders@ == old(self).orders@,
    {
        self.assets[id].owner = new_owner;
        proof {
            assert(final(self).assets@ =~= old(self).assets@.update(
                id as int,
                old(self).assets@[id as int].transferred(new_owner),
            ));
        }
    }
}

/// Creates an asset record owned by `ctx.owner`, active, created at `now`,
/// with its price set to `initial_price`. Weight, purity and certification
/// are stored as given. Fails with `DuplicateAsset`, changing nothing, where
/// an asset already stands at the address derived from the owner and type;
/// else returns the new record's position.
pub fn initialize_asset(
    ledger: &mut Ledger,
    ctx: &InitializeAsset,
    asset_type: AssetType,
    weight: u64,
    purity: u8,
    certification: String,
    initial_price: u64,
    now: i64,
) -> (r: Result<usize, ErrorCode>)
    requires
        old(ledger).wf(),
    ensures
        final(ledger).wf(),
        old(ledger).asset_creation(
            *final(ledger),
            ctx.owner,
            asset_type,
            weight,
            purity,
            certification,
            initial_price,
            now,
            r,
        ),
{
    if ledger.find_asset(&ctx.owner, asset_type).is_some() {
        return Err(ErrorCode::DuplicateAsset);
    }
    let asset = Asset {
        owner: ctx.owner,
        asset_type,
        weight,
        purity,
        certification,
        current_price: initial_price,
        created_at: now,
        last_price_update: 0,
        is_active: true,
    };
    let id = ledger.assets.len();
    ledger.assets.push(asset);
    ledger.asset_creators.push(ctx.owner);
    proof {
        let l = *final(ledger);
        assert forall|i: int, j: int|
            0 <= i < j < l.assets@.len() implies !(#[trigger] l.asset_creators@[i]@
                == #[trigger] l.asset_creators@[j]@ && l.assets@[i].asset_type
                == l.assets@[j].asset_type) by {
            if j == id as int {
                assert(!old(ledger).at_address(i, ctx.owner@, asset_type));
            }
        }
    }
    Ok(id)
}

/// Sets the price of asset `ctx.asset` to `new_price` and records `now` as the
/// time of the update. Fails with `Unauthorized`, changing nothing, unless
/// `ctx.owner` is the asset's owner. No bound is put on the price.
pub fn update_price(
    ledger: &mut Ledger,
    ctx: &UpdatePrice,
    new_price: u64,
    now: i64,
) -> (r: Result<(), ErrorCode>)
    requires
        old(ledger).wf(),
        ctx.asset < old(ledger).assets@.len(),
    ensures
        final(ledger).wf(),
        old(ledger).assets@[ctx.asset as int].owner@ == ctx.owner@ ==> {
            &&& r == Ok::<(), ErrorCode>(())
            &&& final(ledger).assets@ == old(ledger).assets@.update(
                ctx.asset as int,
                old(ledger).assets@[ctx.asset as int].repriced(new_price, now),
            )
            &&& final(ledger).asset_creators@ == old(ledger).asset_creators@
            &&& final(ledger).orders@ == old(ledger).orders@
        },
        old(ledger).assets@[ctx.asset as int].owner@ != ctx.owner@ ==> {
            &&& r == Err::<(), ErrorCode>(ErrorCode::Unauthorized)
            &&& *final(ledger) == *old(ledger)
        },
{
    if !ledger.assets[ctx.asset].owner.same(&ctx.owner) {
        return Err(ErrorCode::Unauthorized);
    }
    ledger.assets[ctx.asset].current_price = new_price;
    ledger.assets[ctx.asset].last_price_update = now;
    proof {
        assert(final(ledger).assets@ =~= old(ledger).assets@.update(
            ctx.asset as int,
            old(ledger).assets@[ctx.asset as int].repriced(new_price, now),
        ));
    }
    Ok(())
}

} // verus!
