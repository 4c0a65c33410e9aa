use vstd::prelude::*;

verus! {

/// The specific failure kind a rejected transition reports.
///
/// Every precondition violation aborts the whole operation before any
/// mutation, and the caller always learns which precondition failed, so a
/// client can tell "try again later" (`MarketNotExpired`) from "this input
/// is permanently invalid" (`InvalidPrice`).
#[derive(Clone, Copy, Debug, PartialEq, Eq, Structural)]
pub enum ErrorCode {
    /// Wrong caller for a gated operation.
    Unauthorized,
    /// Resolution attempted before the market's expiry instant.
    MarketNotExpired,
    /// Operation attempted on a deactivated market (reserved; no specified
    /// operation deactivates a market).
    MarketNotActive,
    /// Resolution attempted on a market that already carries an outcome.
    AlreadyResolved,
    /// A price outside the basis-point domain `[0, 10000]`.
    InvalidPrice,
    /// Reserved for the token/collateral collaborator.
    InsufficientBalance,
    /// Overflow, or a fill that would drive an order past its size.
    ArithmeticFault,
    /// A record already committed at the creation key.
    AlreadyExists,
    /// A referenced record is absent.
    NotFound,
    /// An input that does not fit the record it would create or the fill
    /// it describes.
    ValidationError,
}

} // verus!
