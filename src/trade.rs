use vstd::prelude::*;

use crate::ledger::Ledger;
use crate::orders::TradeOrder;
use crate::types::{ErrorCode, Key};

verus! {

/// The parties to a trade: the order and asset records, the two settlement
/// token accounts, the order's owner (authority over the source account) and
/// the buyer who receives the asset. The buyer is taken as given: it is not
/// matched against the order or the settlement accounts.
#[derive(Clone, Copy, Debug)]
pub struct ExecuteTrade {
    pub order: usize,
    pub asset: usize,
    pub from_token_account: Key,
    pub to_token_account: Key,
    pub owner: Key,
    pub buyer: Key,
}

/// A movement of `amount` settlement tokens from one token account to
/// another, authorized by `authority`.
#[derive(Clone, Copy, Debug)]
pub struct TokenTransfer {
    pub from: Key,
    pub to: Key,
    pub authority: Key,
    pub amount: u64,
}

/// Why the settlement transfer did not go through.
#[derive(Clone, Copy, Debug, PartialEq, Eq, Structural)]
pub enum SettlementError {
    InsufficientFunds,
    Unauthorized,
}

impl SettlementError {
    /// The ledger error that a failed settlement surfaces as.
    pub open spec fn spec_code(self) -> ErrorCode {
        match self {
            SettlementError::InsufficientFunds => ErrorCode::InsufficientFunds,
            SettlementError::Unauthorized => ErrorCode::Unauthorized,
        }
    }

    /// The ledger error that a failed settlement surfaces as.
    pub fn code(self) -> (r: ErrorCode)
        ensures
            r == self.spec_code(),
    {
        match self {
            SettlementError::InsufficientFunds => ErrorCode::InsufficientFunds,
            SettlementError::Unauthorized => ErrorCode::Unauthorized,
        }
    }
}

/// The preconditions of execution, in the order they are checked.
pub open spec fn trade_check(order: TradeOrder) -> Result<(), ErrorCode> {
    if !order.is_active {
        Err(ErrorCode::OrderInactive)
    } else if order.quantity == 0 {
        Err(ErrorCode::InvalidQuantity)
    } else {
        Ok(())
    }
}

/// The settlement a trade makes: the order's whole quantity of tokens, from
/// the source account to the destination, on the order owner's authority.
/// The order's unit price takes no part in it.
pub open spec fn settlement_of(order: TradeOrder, ctx: ExecuteTrade) -> TokenTransfer {
    TokenTransfer {
        from: ctx.from_token_account,
        to: ctx.to_token_account,
        authority: ctx.owner,
        amount: order.quantity,
    }
}

impl Ledger {
    /// The transfer that executing `ctx` in this ledger must settle, or the
    /// error that refuses it before any transfer.
    pub open spec fn trade_plan(self, ctx: ExecuteTrade) -> Result<TokenTransfer, ErrorCode> {
        let order = self.orders@[ctx.order as int];
        match trade_check(order) {
            Ok(_) => Ok(settlement_of(order, ctx)),
            Err(e) => Err(e),
        }
    }

    /// Whether `new` and `r` are what executing `ctx` in this ledger gives,
    /// where `settlement` is the outcome of the planned transfer.
    pub open spec fn trade_execution(
        self,
        new: Ledger,
        ctx: ExecuteTrade,
        settlement: Result<(), SettlementError>,
        r: Result<(), ErrorCode>,
    ) -> bool {
        let order = self.orders@[ctx.order as int];
        match trade_check(order) {
            Err(e) => r == Err::<(), ErrorCode>(e) && new == self,
            Ok(_) => match settlement {
                Err(s) => r == Err::<(), ErrorCode>(s.spec_code()) && new == self,
                Ok(_) => {
                    &&& r == Ok::<(), ErrorCode>(())
                    &&& new.orders@ == self.orders@.update(ctx.order as int, order.consumed())
                    &&& new.assets@ == self.assets@.update(
                        ctx.asset as int,
                        self.assets@[ctx.asset as int].transferred(ctx.buyer),
                    )
                    &&& new.asset_creators@ == self.asset_creators@
                },
            },
        }
    }
}

/// Checks that order `ctx.order` can be executed and returns the one token
/// transfer that settles it; refuses with `OrderInactive` or, for an active
/// order with nothing left, `InvalidQuantity`.
pub fn settlement_for(ledger: &Ledger, ctx: &ExecuteTrade) -> (r: Result<TokenTransfer, ErrorCode>)
    requires
        ledger.wf(),
        ctx.order < ledger.orders@.len(),
    ensures
        r == ledger.trade_plan(*ctx),
{
    let order = ledger.order(ctx.order);
    if !order.is_active {
        return Err(ErrorCode::OrderInactive);
    }
    if order.quantity == 0 {
        return Err(ErrorCode::InvalidQuantity);
    }
    Ok(
        TokenTransfer {
            from: ctx.from_token_account,
            to: ctx.to_token_account,
            authority: ctx.owner,
            amount: order.quantity,
        },
    )
}

/// Executes order `ctx.order` against asset `ctx.asset`, given the outcome of
/// the transfer that `settlement_for` planned. The preconditions are checked
/// again first; a refused order or a failed settlement changes nothing.
/// Otherwise the order is consumed (quantity zero, inactive) and the asset
/// passes to `ctx.buyer`, together.
pub fn execute_trade(
    ledger: &mut Ledger,
    ctx: &ExecuteTrade,
    settlement: Result<(), SettlementError>,
) -> (r: Result<(), ErrorCode>)
    requires
        old(ledger).wf(),
        ctx.order < old(ledger).orders@.len(),
        ctx.asset < old(ledger).assets@.len(),
    ensures
        final(ledger).wf(),
        old(ledger).trade_execution(*final(ledger), *ctx, settlement, r),
{
    if let Err(e) = settlement_for(ledger, ctx) {
        return Err(e);
    }
    if let Err(s) = settlement {
        return Err(s.code());
    }
    ledger.deactivate(ctx.order);
    ledger.transfer_ownership(ctx.asset, ctx.buyer);
    Ok(())
}

} // verus!
