use vstd::prelude::*;

use crate::errors::ErrorCode;
use crate::identity::AccountId;
use crate::order::Order;
use crate::order::OrderStatus;
use crate::order::MAX_PRICE_BPS;

verus! {

/// The status an order carries once a fill has raised its counter to
/// `filled`: full orders read `Filled`, anything short of full reads
/// `Partial` (a fill is strictly positive, so a post-fill counter is never
/// zero and `Pending` is unreachable here).
pub open spec fn status_after_fill(filled: u64, size: u64) -> OrderStatus {
    if filled >= size {
        OrderStatus::Filled
    } else {
        OrderStatus::Partial
    }
}

/// All preconditions of a settlement, over the two orders as they stood
/// before the call: the caller holds the settlement capability, the price
/// sits in the basis-point domain, the fill is strictly positive, both
/// orders rest against the same market, and neither order would be driven
/// past its requested size.
pub open spec fn fill_accepted(
    buy: Order,
    sell: Order,
    fill_size: u64,
    fill_price: u64,
    caller: AccountId,
    settlement_authority: AccountId,
) -> bool {
    &&& caller == settlement_authority
    &&& fill_price <= MAX_PRICE_BPS
    &&& fill_size > 0
    &&& buy.market == sell.market
    &&& buy.filled + fill_size <= buy.size
    &&& sell.filled + fill_size <= sell.size
}

/// How a settled order relates to its pre-settlement state: the fill
/// counter grew by exactly `fill_size`, the status was recomputed from the
/// new counter, and every other field is untouched.
pub open spec fn fill_applied(pre: Order, post: Order, fill_size: u64) -> bool {
    &&& post.filled == pre.filled + fill_size
    &&& post.status == status_after_fill(post.filled, post.size)
    &&& post.market == pre.market
    &&& post.user == pre.user
    &&& post.side == pre.side
    &&& post.order_type == pre.order_type
    &&& post.price == pre.price
    &&& post.size == pre.size
}

/// Law: settlement is monotone and terminal at `Filled`. Once a well-formed
/// order reads `Filled`, its counter sits exactly at its size, so no fill —
/// with the order on either side of the pair — can ever be accepted against
/// it again; [`settle_fill`] therefore rejects such a call and changes
/// neither order.
pub proof fn lemma_filled_order_never_settles(
    order: Order,
    other: Order,
    fill_size: u64,
    fill_price: u64,
    caller: AccountId,
    settlement_authority: AccountId,
)
    requires
        order.wf(),
        order.status is Filled,
    ensures
        !fill_accepted(order, other, fill_size, fill_price, caller, settlement_authority),
        !fill_accepted(other, order, fill_size, fill_price, caller, settlement_authority),
{
}

/// Audit notification for one applied fill, consumed by the off-ledger
/// reconciliation and token/collateral collaborators.
#[derive(Clone, Copy, Debug, PartialEq, Eq, Structural)]
pub struct FillSettled {
    /// Address of the buy-side order record.
    pub buy_order: AccountId,
    /// Address of the sell-side order record.
    pub sell_order: AccountId,
    pub fill_size: u64,
    pub fill_price: u64,
}

/// Settlement Engine: atomically applies one externally matched fill to a
/// pair of resting orders.
///
/// The off-chain matcher decided that these two orders cross; this
/// transition does not re-derive that judgment (it checks neither sides nor
/// price compatibility — that trust is placed in the matcher and in the
/// settlement authority). It does re-check everything the ledger itself
/// owns: the capability (`caller` must be the designated
/// `settlement_authority`, rejected with `Unauthorized`), the fill price
/// domain (`InvalidPrice`), a positive fill against two orders of one
/// market (`ValidationError`), and that neither order is driven past its
/// size — checked addition, so a would-be overflow or oversized fill is an
/// `ArithmeticFault`, never a wrap or a clamp.
///
/// The update is all-or-nothing: on any rejection both orders are exactly
/// as they were and no notification is owed. On success both fill counters
/// grow by `fill_size`, both statuses are recomputed from the new counters,
/// and the returned [`FillSettled`] value names both order addresses and
/// the fill terms. In particular an order that already reads `Filled` can
/// never be settled again: its counter is at its size, so any further fill
/// is rejected before either order changes.
pub fn settle_fill(
    buy_order_id: AccountId,
    buy_order: &mut Order,
    sell_order_id: AccountId,
    sell_order: &mut Order,
    fill_size: u64,
    fill_price: u64,
    caller: AccountId,
    settlement_authority: AccountId,
) -> (result: Result<FillSettled, ErrorCode>)
    requires
        old(buy_order).wf(),
        old(sell_order).wf(),
    ensures
        final(buy_order).wf(),
        final(sell_order).wf(),
        result is Ok <==> fill_accepted(
            *old(buy_order),
            *old(sell_order),
            fill_size,
            fill_price,
            caller,
            settlement_authority,
        ),
        result matches Ok(event) ==> {
            &&& fill_applied(*old(buy_order), *final(buy_order), fill_size)
            &&& fill_applied(*old(sell_order), *final(sell_order), fill_size)
            &&& event == (FillSettled {
                buy_order: buy_order_id,
                sell_order: sell_order_id,
                fill_size,
                fill_price,
            })
        },
        result is Err ==> {
            &&& *final(buy_order) == *old(buy_order)
            &&& *final(sell_order) == *old(sell_order)
        },
        (old(buy_order).status is Filled || old(sell_order).status is Filled) ==> result is Err,
        result matches Err(e) ==> {
            ||| (e == ErrorCode::Unauthorized && caller != settlement_authority)
            ||| {
                &&& e == ErrorCode::InvalidPrice
                &&& caller == settlement_authority
                &&& fill_price > MAX_PRICE_BPS
            }
            ||| {
                &&& e == ErrorCode::ValidationError
                &&& caller == settlement_authority
                &&& fill_price <= MAX_PRICE_BPS
                &&& (fill_size == 0 || old(buy_order).market != old(sell_order).market)
            }
            ||| {
                &&& e == ErrorCode::ArithmeticFault
                &&& caller == settlement_authority
                &&& fill_price <= MAX_PRICE_BPS
                &&& fill_size > 0
                &&& old(buy_order).market == old(sell_order).market
                &&& (old(buy_order).filled + fill_size > old(buy_order).size
                    || old(sell_order).filled + fill_size > old(sell_order).size)
            }
        },
{
    if caller != settlement_authority {
        return Err(ErrorCode::Unauthorized);
    }
    if fill_price > MAX_PRICE_BPS {
        return Err(ErrorCode::InvalidPrice);
    }
    if fill_size == 0 || buy_order.market != sell_order.market {
        return Err(ErrorCode::ValidationError);
    }
    if fill_size > buy_order.size - buy_order.filled || fill_size > sell_order.size - sell_order.filled {
        return Err(ErrorCode::ArithmeticFault);
    }
    buy_order.filled = buy_order.filled + fill_size;
    buy_order.status = if buy_order.filled >= buy_order.size {
        OrderStatus::Filled
    } else {
        OrderStatus::Partial
    };
    sell_order.filled = sell_order.filled + fill_size;
    sell_order.status = if sell_order.filled >= sell_order.size {
        OrderStatus::Filled
    } else {
        OrderStatus::Partial
    };
    Ok(FillSettled { buy_order: buy_order_id, sell_order: sell_order_id, fill_size, fill_price })
}

} // verus!
