//! Properties of the ledger that relate several operations, proved from
//! their contracts.

use vstd::prelude::*;

use crate::ledger::Ledger;
use crate::registry::Asset;
use crate::trade::{settlement_of, ExecuteTrade, SettlementError, TokenTransfer};
use crate::types::{AssetType, ErrorCode, Key};

verus! {

/// Creating an asset at a free address succeeds, and reading the new record
/// back gives exactly the inputs, active, created at `now`, with no price
/// update recorded yet.
pub proof fn lemma_created_asset_reads_back(
    before: Ledger,
    after: Ledger,
    owner: Key,
    asset_type: AssetType,
    weight: u64,
    purity: u8,
    certification: String,
    initial_price: u64,
    now: i64,
    r: Result<usize, ErrorCode>,
)
    requires
        before.wf(),
        !before.address_taken(owner@, asset_type),
        before.asset_creation(
            after,
            owner,
            asset_type,
            weight,
            purity,
            certification,
            initial_price,
            now,
            r,
        ),
    ensures
        r is Ok,
        r->Ok_0 < after.assets@.len(),
        after.assets@[r->Ok_0 as int] == (Asset {
            owner,
            asset_type,
            weight,
            purity,
            certification,
            current_price: initial_price,
            created_at: now,
            last_price_update: 0,
            is_active: true,
        }),
        after.address_taken(owner@, asset_type),
{
    assert(after.at_address(r->Ok_0 as int, owner@, asset_type));
}

/// An inactive order is refused with `OrderInactive` whatever the settlement
/// outcome, and neither the order nor the asset changes.
pub proof fn lemma_inactive_order_refused(
    before: Ledger,
    after: Ledger,
    ctx: ExecuteTrade,
    settlement: Result<(), SettlementError>,
    r: Result<(), ErrorCode>,
)
    requires
        before.wf(),
        ctx.order < before.orders@.len(),
        ctx.asset < before.assets@.len(),
        !before.orders@[ctx.order as int].is_active,
        before.trade_execution(after, ctx, settlement, r),
    ensures
        before.trade_plan(ctx) == Err::<TokenTransfer, ErrorCode>(
            ErrorCode::OrderInactive,
        ),
        r == Err::<(), ErrorCode>(ErrorCode::OrderInactive),
        after.orders@[ctx.order as int] == before.orders@[ctx.order as int],
        after.assets@[ctx.asset as int] == before.assets@[ctx.asset as int],
        after == before,
{
}

/// An active order with a zero quantity is refused with `InvalidQuantity`
/// before any transfer is planned, and its execution fails the same way,
/// changing nothing, whatever outcome a settlement would have had.
pub proof fn lemma_zero_quantity_refused_before_settlement(
    before: Ledger,
    after: Ledger,
    ctx: ExecuteTrade,
    settlement: Result<(), SettlementError>,
    r: Result<(), ErrorCode>,
)
    requires
        before.wf(),
        ctx.order < before.orders@.len(),
        ctx.asset < before.assets@.len(),
        before.orders@[ctx.order as int].is_active,
        before.orders@[ctx.order as int].quantity == 0,
        before.trade_execution(after, ctx, settlement, r),
    ensures
        before.trade_plan(ctx) == Err::<TokenTransfer, ErrorCode>(
            ErrorCode::InvalidQuantity,
        ),
        r == Err::<(), ErrorCode>(ErrorCode::InvalidQuantity),
        after == before,
{
}

/// A successful trade planned exactly one transfer, of the order's whole
/// quantity before execution, and left the order with quantity zero and
/// inactive and the asset owned by the buyer.
pub proof fn lemma_settled_trade(
    before: Ledger,
    after: Ledger,
    ctx: ExecuteTrade,
    settlement: Result<(), SettlementError>,
    r: Result<(), ErrorCode>,
)
    requires
        before.wf(),
        ctx.order < before.orders@.len(),
        ctx.asset < before.assets@.len(),
        before.trade_execution(after, ctx, settlement, r),
        r is Ok,
    ensures
        settlement is Ok,
        before.trade_plan(ctx) == Ok::<TokenTransfer, ErrorCode>(
            settlement_of(before.orders@[ctx.order as int], ctx),
        ),
        settlement_of(before.orders@[ctx.order as int], ctx).amount
            == before.orders@[ctx.order as int].quantity,
        after.orders@[ctx.order as int].quantity == 0,
        !after.orders@[ctx.order as int].is_active,
        after.assets@[ctx.asset as int].owner == ctx.buyer,
{
}

/// Executing the same order twice: once the first execution has succeeded,
/// the second is refused with `OrderInactive`, plans no transfer and changes
/// nothing.
pub proof fn lemma_second_execution_refused(
    l0: Ledger,
    l1: Ledger,
    l2: Ledger,
    ctx: ExecuteTrade,
    first_settlement: Result<(), SettlementError>,
    second_settlement: Result<(), SettlementError>,
    r1: Result<(), ErrorCode>,
    r2: Result<(), ErrorCode>,
)
    requires
        l0.wf(),
        ctx.order < l0.orders@.len(),
        ctx.asset < l0.assets@.len(),
        l0.trade_execution(l1, ctx, first_settlement, r1),
        r1 is Ok,
        l1.trade_execution(l2, ctx, second_settlement, r2),
    ensures
        l1.trade_plan(ctx) == Err::<TokenTransfer, ErrorCode>(
            ErrorCode::OrderInactive,
        ),
        r2 == Err::<(), ErrorCode>(ErrorCode::OrderInactive),
        l2 == l1,
{
}

} // verus!
