use vstd::prelude::*;

use crate::errors::ErrorCode;
use crate::identity::AccountId;
use crate::market::Market;

verus! {

/// All preconditions of a resolution, over the market as it stood before
/// the call: the expiry instant has passed, the caller is the market's
/// creator, and no outcome has been stamped yet.
pub open spec fn resolution_accepted(pre: Market, caller: AccountId, now: i64) -> bool {
    &&& now >= pre.expiry_timestamp
    &&& caller == pre.creator
    &&& !pre.is_resolved
}

/// Notification of a finalized outcome, consumed by the downstream
/// redemption logic that pays out Yes/No token holders.
#[derive(Clone, Copy, Debug, PartialEq, Eq, Structural)]
pub struct MarketResolved {
    /// Address of the resolved market record.
    pub market: AccountId,
    /// The final binary outcome: true for Yes, false for No.
    pub outcome: bool,
}

/// Resolution Gate: finalizes a market's binary outcome, exactly once.
///
/// `now` is the host ledger's clock reading for this transaction, and
/// `caller` its authenticated submitter; `market_id` is the address of the
/// record, echoed in the notification.
///
/// Precedence among the rejections: before the expiry instant, every
/// call fails with `MarketNotExpired` no matter who submitted it; from the
/// expiry instant on, anyone but the creator is turned away with
/// `Unauthorized`; and a market that already carries an outcome is never
/// re-stamped — the repeat call fails with `AlreadyResolved`, so a resolved
/// outcome can never change. On success the market is marked resolved with
/// `resolution = Some(outcome)` and every other field untouched; on any
/// rejection the market is exactly as it was and no notification is owed.
pub fn resolve_market(
    market_id: AccountId,
    market: &mut Market,
    caller: AccountId,
    now: i64,
    outcome: bool,
) -> (result: Result<MarketResolved, ErrorCode>)
    requires
        old(market).wf(),
    ensures
        final(market).wf(),
        result is Ok <==> resolution_accepted(*old(market), caller, now),
        result matches Ok(event) ==> {
            &&& final(market).is_resolved
            &&& final(market).resolution == Some(outcome)
            &&& final(market).creator == old(market).creator
            &&& final(market).title@ == old(market).title@
            &&& final(market).description@ == old(market).description@
            &&& final(market).expiry_timestamp == old(market).expiry_timestamp
            &&& final(market).is_active == old(market).is_active
            &&& final(market).yes_token_supply == old(market).yes_token_supply
            &&& final(market).no_token_supply == old(market).no_token_supply
            &&& event == (MarketResolved { market: market_id, outcome })
        },
        result is Err ==> *final(market) == *old(market),
        now < old(market).expiry_timestamp ==> result matches Err(ErrorCode::MarketNotExpired),
        (now >= old(market).expiry_timestamp && caller != old(market).creator)
            ==> result matches Err(ErrorCode::Unauthorized),
        result matches Err(e) ==> {
            ||| (e == ErrorCode::MarketNotExpired && now < old(market).expiry_timestamp)
            ||| {
                &&& e == ErrorCode::Unauthorized
                &&& now >= old(market).expiry_timestamp
                &&& caller != old(market).creator
            }
            ||| {
                &&& e == ErrorCode::AlreadyResolved
                &&& now >= old(market).expiry_timestamp
                &&& caller == old(market).creator
                &&& old(market).is_resolved
            }
        },
{
    if now < market.expiry_timestamp {
        return Err(ErrorCode::MarketNotExpired);
    }
    if caller != market.creator {
        return Err(ErrorCode::Unauthorized);
    }
    if market.is_resolved {
        return Err(ErrorCode::AlreadyResolved);
    }
    market.is_resolved = true;
    market.resolution = Some(outcome);
    Ok(MarketResolved { market: market_id, outcome })
}

} // verus!
