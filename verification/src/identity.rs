use vstd::prelude::*;

verus! {

/// An authenticated account identity, as supplied by the host ledger's
/// identity layer.
///
/// The core never inspects an identity beyond comparing it for equality:
/// authority is a capability held by exactly one identity per gated
/// operation, not a role hierarchy. The same type also addresses records,
/// since the host ledger assigns every committed record an account address.
#[derive(Clone, Copy, Debug, PartialEq, Eq, Hash, Structural)]
pub struct AccountId(pub u64);

} // verus!
