use vstd::prelude::*;

use crate::ledger::Ledger;
use crate::types::{Key, OrderType};

verus! {

/// A standing intent to buy or sell a quantity of one asset at a fixed unit price.
#[derive(Clone, Copy, Debug)]
pub struct TradeOrder {
    /// Position of the asset record the order targets.
    pub asset: usize,
    /// The identity that placed the order.
    pub owner: Key,
    pub order_type: OrderType,
    pub quantity: u64,
    pub price_per_unit: u64,
    /// Seconds since the epoch.
    pub created_at: i64,
    /// True until the order is executed; never true again after that.
    pub is_active: bool,
}

/// The parties to an order's creation: the targeted asset and the identity placing it.
#[derive(Clone, Copy, Debug)]
pub struct CreateTradeOrder {
    pub asset: usize,
    pub owner: Key,
}

impl TradeOrder {
    /// The order that creation writes.
    pub open spec fn created(
        asset: usize,
        owner: Key,
        order_type: OrderType,
        quantity: u64,
        price_per_unit: u64,
        now: i64,
    ) -> TradeOrder {
        TradeOrder { asset, owner, order_type, quantity, price_per_unit, created_at: now, is_active: true }
    }

    /// This order once executed: nothing left, inactive.
    pub open spec fn consumed(self) -> TradeOrder {
        TradeOrder { quantity: 0, is_active: false, ..self }
    }
}

impl Ledger {
    /// Marks order `id` as executed: quantity zero, inactive. Only a settled
    /// trade calls it.
    pub(crate) fn deactivate(&mut self, id: usize)
        requires
            old(self).wf(),
            id < old(self).orders@.len(),
        ensures
            final(self).wf(),
            final(self).orders@ == old(self).orders@.update(
                id as int,
                old(self).orders@[id as int].consumed(),
            ),
            final(self).assets@ == old(self).assets@,
            final(self).asset_creators@ == old(self).asset_creators@,
    {
        self.orders[id].quantity = 0;
        self.orders[id].is_active = false;
        proof {
            assert(final(self).orders@ =~= old(self).orders@.update(
                id as int,
                old(self).orders@[id as int].consumed(),
            ));
        }
    }
}

/// Places an active order, created at `now`, and returns its position.
/// Neither the asset reference, the owner's relation to the asset nor the
/// quantity is checked here; a zero quantity is refused only at execution.
pub fn create_trade_order(
    ledger: &mut Ledger,
    ctx: &CreateTradeOrder,
    order_type: OrderType,
    quantity: u64,
    price_per_unit: u64,
    now: i64,
) -> (r: usize)
    requires
        old(ledger).wf(),
    ensures
        final(ledger).wf(),
        r == old(ledger).orders@.len(),
        final(ledger).orders@ == old(ledger).orders@.push(
            TradeOrder::created(ctx.asset, ctx.owner, order_type, quantity, price_per_unit, now),
        ),
        final(ledger).assets@ == old(ledger).assets@,
        final(ledger).asset_creators@ == old(ledger).asset_creators@,
{
    let id = ledger.orders.len();
    ledger.orders.push(
        TradeOrder {
            asset: ctx.asset,
            owner: ctx.owner,
            order_type,
            quantity,
            price_per_unit,
            created_at: now,
            is_active: true,
        },
    );
    id
}

} // verus!
