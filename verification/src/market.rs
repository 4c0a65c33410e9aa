use vstd::prelude::*;

use crate::errors::ErrorCode;
use crate::identity::AccountId;

verus! {

/// Longest admissible market title, in bytes.
pub const MAX_TITLE_BYTES: usize = 256;

/// Longest admissible market description, in bytes.
pub const MAX_DESCRIPTION_BYTES: usize = 512;

/// One binary-outcome prediction question.
///
/// A market is uniquely addressed by the pair (creator, title); the host
/// ledger derives the record's address from that pair, so the pair doubles
/// as the deduplication key. All fields but the resolution pair are
/// immutable after creation; `is_resolved`/`resolution` are stamped exactly
/// once by [`crate::resolution::resolve_market`].
///
/// `is_active` and the two token supplies are reserved extension points:
/// no specified transition flips or increments them.
#[derive(Clone, Debug)]
pub struct Market {
    /// The identity authorized to resolve this market.
    pub creator: AccountId,
    /// The question's title, at most [`MAX_TITLE_BYTES`] bytes.
    pub title: Vec<u8>,
    /// The question's description, at most [`MAX_DESCRIPTION_BYTES`] bytes.
    pub description: Vec<u8>,
    /// Epoch seconds; resolution may not occur before this instant.
    pub expiry_timestamp: i64,
    /// Set at creation; reserved for a future deactivation transition.
    pub is_active: bool,
    /// False until resolution succeeds; monotonic, never reversed.
    pub is_resolved: bool,
    /// Absent until resolved; once set, never changes.
    pub resolution: Option<bool>,
    /// Reserved for the token-minting collaborator.
    pub yes_token_supply: u64,
    /// Reserved for the token-minting collaborator.
    pub no_token_supply: u64,
}

impl Market {
    /// Well-formedness of a committed market record: the texts fit their
    /// storage bounds and the resolution flag agrees with the outcome field.
    pub open spec fn wf(self) -> bool {
        &&& self.title@.len() <= MAX_TITLE_BYTES
        &&& self.description@.len() <= MAX_DESCRIPTION_BYTES
        &&& (self.is_resolved <==> self.resolution is Some)
    }
}

/// Market Registry: creates the record for a new prediction question.
///
/// `existing` is whatever record the host ledger already holds at the
/// (creator, title) key, so that a duplicate creation key is rejected
/// instead of overwriting a committed market.
///
/// On success the new market is active, unresolved, carries no outcome, and
/// both token supplies start at zero. Oversized texts are rejected with
/// `ValidationError` before the deduplication key is consulted; a colliding
/// key is rejected with `AlreadyExists`. No notification is emitted:
/// creation is discoverable by querying the registry.
pub fn initialize_market(
    creator: AccountId,
    title: Vec<u8>,
    description: Vec<u8>,
    expiry_timestamp: i64,
    existing: Option<&Market>,
) -> (result: Result<Market, ErrorCode>)
    ensures
        result is Ok <==> {
            &&& title@.len() <= MAX_TITLE_BYTES
            &&& description@.len() <= MAX_DESCRIPTION_BYTES
            &&& existing is None
        },
        result matches Ok(market) ==> {
            &&& market.creator == creator
            &&& market.title@ == title@
            &&& market.description@ == description@
            &&& market.expiry_timestamp == expiry_timestamp
            &&& market.is_active
            &&& !market.is_resolved
            &&& market.resolution is None
            &&& market.yes_token_supply == 0
            &&& market.no_token_supply == 0
            &&& market.wf()
        },
        result matches Err(e) ==> {
            ||| {
                &&& e == ErrorCode::ValidationError
                &&& (title@.len() > MAX_TITLE_BYTES || description@.len() > MAX_DESCRIPTION_BYTES)
            }
            ||| {
                &&& e == ErrorCode::AlreadyExists
                &&& title@.len() <= MAX_TITLE_BYTES
                &&& description@.len() <= MAX_DESCRIPTION_BYTES
                &&& existing is Some
            }
        },
{
    if title.len() > MAX_TITLE_BYTES || description.len() > MAX_DESCRIPTION_BYTES {
        return Err(ErrorCode::ValidationError);
    }
    if existing.is_some() {
        return Err(ErrorCode::AlreadyExists);
    }
    Ok(Market {
        creator,
        title,
        description,
        expiry_timestamp,
        is_active: true,
        is_resolved: false,
        resolution: None,
        yes_token_supply: 0,
        no_token_supply: 0,
    })
}

} // verus!
