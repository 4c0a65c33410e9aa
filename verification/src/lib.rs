//! On-ledger state machine for a binary-outcome prediction market exchange.
//!
//! The core defines four atomic, authenticated transitions: a market is
//! created (registry), resting orders are recorded against it (ledger),
//! externally matched fills are applied to a pair of orders (settlement),
//! and the market is finalized to its binary outcome after expiry
//! (resolution). Every transition re-checks its preconditions against the
//! already-committed records it is handed and either commits in full or
//! rejects with a specific [`errors::ErrorCode`], mutating nothing.
//!
//! The host ledger is out of scope: it authenticates callers, stores the
//! records at their addresses, derives those addresses, supplies the clock,
//! and delivers the notification values the transitions return.

pub mod errors;
pub mod identity;
pub mod market;
pub mod order;
pub mod resolution;
pub mod settlement;

pub use errors::ErrorCode;
pub use identity::AccountId;
pub use market::initialize_market;
pub use market::Market;
pub use market::MAX_DESCRIPTION_BYTES;
pub use market::MAX_TITLE_BYTES;
pub use order::place_order;
pub use order::Order;
pub use order::OrderPlaced;
pub use order::OrderStatus;
pub use order::OrderType;
pub use order::Side;
pub use order::MAX_PRICE_BPS;
pub use resolution::resolve_market;
pub use resolution::MarketResolved;
pub use settlement::settle_fill;
pub use settlement::FillSettled;
