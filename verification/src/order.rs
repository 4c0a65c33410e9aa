use vstd::prelude::*;

use crate::errors::ErrorCode;
use crate::identity::AccountId;
use crate::market::Market;

verus! {

/// Highest admissible price, in integer basis points (10000 = probability 1.0).
pub const MAX_PRICE_BPS: u64 = 10000;

/// Which outcome token an order concerns.
#[derive(Clone, Copy, Debug, PartialEq, Eq, Structural)]
pub enum Side {
    Yes,
    No,
}

/// Recorded with the order but not interpreted by any on-ledger logic;
/// interpretation belongs entirely to the off-chain matcher.
#[derive(Clone, Copy, Debug, PartialEq, Eq, Structural)]
pub enum OrderType {
    Market,
    Limit,
}

/// Derived from `filled` versus `size`, except `Cancelled`, which is
/// reserved: no specified transition sets it.
#[derive(Clone, Copy, Debug, PartialEq, Eq, Structural)]
pub enum OrderStatus {
    Pending,
    Partial,
    Filled,
    Cancelled,
}

/// One participant's resting trade intent for one side of a market.
///
/// An order is uniquely addressed by the pair (market, user): a participant
/// holds at most one resting order per market. Created once by
/// [`place_order`]; only settlement ever mutates it, and only its
/// `filled`/`status` pair.
#[derive(Clone, Copy, Debug, PartialEq, Eq, Structural)]
pub struct Order {
    /// Address of the owning market record.
    pub market: AccountId,
    /// The identity that placed, and owns, this order.
    pub user: AccountId,
    /// Which outcome token the order concerns.
    pub side: Side,
    /// Recorded for the off-chain matcher; never interpreted here.
    pub order_type: OrderType,
    /// Basis points, in `[0, 10000]`.
    pub price: u64,
    /// Total requested quantity.
    pub size: u64,
    /// Cumulative quantity matched so far; never exceeds `size`.
    pub filled: u64,
    /// Derived from `filled` versus `size`.
    pub status: OrderStatus,
}

impl Order {
    /// The status field agrees with the fill counters: `Pending` means
    /// nothing filled, `Partial` means strictly between empty and full,
    /// `Filled` means exactly full. `Cancelled` is reserved and carries no
    /// counter constraint.
    pub open spec fn status_consistent(self) -> bool {
        match self.status {
            OrderStatus::Pending => self.filled == 0,
            OrderStatus::Partial => 0 < self.filled < self.size,
            OrderStatus::Filled => self.filled == self.size,
            OrderStatus::Cancelled => true,
        }
    }

    /// Well-formedness of a committed order record: the fill never exceeds
    /// the requested size, the price sits in the basis-point domain, and the
    /// status matches the counters. Placement establishes this and
    /// settlement preserves it.
    pub open spec fn wf(self) -> bool {
        &&& self.filled <= self.size
        &&& self.price <= MAX_PRICE_BPS
        &&& self.status_consistent()
    }
}

/// Notification carrying the full content of a freshly placed order: the
/// sole mechanism by which the off-chain matching engine learns of new
/// liquidity. The host must deliver it at least once; the matcher
/// deduplicates by `order_id`.
#[derive(Clone, Copy, Debug, PartialEq, Eq, Structural)]
pub struct OrderPlaced {
    /// Address the host ledger assigned to the new order record.
    pub order_id: AccountId,
    pub market: AccountId,
    pub user: AccountId,
    pub side: Side,
    pub order_type: OrderType,
    pub price: u64,
    pub size: u64,
}

/// Order Ledger: records a new resting order against an existing market.
///
/// The host ledger hands in what it holds at the two keys the call touches:
/// `market_record` is the record at the `market` address (absent means the
/// order references no existing market), and `existing` is the record
/// already committed at the (market, user) order key (present means this
/// participant already has a resting order there). `order_id` is the
/// address the host derived for the new record; it is echoed in the
/// notification so the matcher can deduplicate.
///
/// On success the new order carries the given terms with `filled = 0` and
/// `status = Pending`, and the returned [`OrderPlaced`] value repeats the
/// full order content. An absent market is rejected with `NotFound`, a
/// duplicate (market, user) key with `AlreadyExists`, and a price outside
/// the basis-point domain with `InvalidPrice`, in that order of precedence;
/// nothing is recorded and no notification is owed on any rejection.
pub fn place_order(
    order_id: AccountId,
    market: AccountId,
    market_record: Option<&Market>,
    user: AccountId,
    existing: Option<&Order>,
    side: Side,
    order_type: OrderType,
    price: u64,
    size: u64,
) -> (result: Result<(Order, OrderPlaced), ErrorCode>)
    ensures
        result is Ok <==> {
            &&& market_record is Some
            &&& existing is None
            &&& price <= MAX_PRICE_BPS
        },
        result matches Ok((order, event)) ==> {
            &&& order == (Order {
                market,
                user,
                side,
                order_type,
                price,
                size,
                filled: 0,
                status: OrderStatus::Pending,
            })
            &&& order.wf()
            &&& event == (OrderPlaced { order_id, market, user, side, order_type, price, size })
        },
        result matches Err(e) ==> {
            ||| (e == ErrorCode::NotFound && market_record is None)
            ||| {
                &&& e == ErrorCode::AlreadyExists
                &&& market_record is Some
                &&& existing is Some
            }
            ||| {
                &&& e == ErrorCode::InvalidPrice
                &&& market_record is Some
                &&& existing is None
                &&& price > MAX_PRICE_BPS
            }
        },
{
    if market_record.is_none() {
        return Err(ErrorCode::NotFound);
    }
    if existing.is_some() {
        return Err(ErrorCode::AlreadyExists);
    }
    if price > MAX_PRICE_BPS {
        return Err(ErrorCode::InvalidPrice);
    }
    let order = Order {
        market,
        user,
        side,
        order_type,
        price,
        size,
        filled: 0,
        status: OrderStatus::Pending,
    };
    let event = OrderPlaced { order_id, market, user, side, order_type, price, size };
    Ok((order, event))
}

} // verus!
