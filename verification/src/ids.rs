//! Plain-value forms of the identifiers the host runtime issues.
//!
//! The contract never constructs or interprets these values itself: the
//! host hands them out and the contract only stores and forwards them,
//! so each is modelled here as the plain data the contract moves around.

use vstd::prelude::*;

verus! {

/// Identifier the host issues for an IPF or IPS asset. The contract
/// treats it as an opaque handle.
pub type CommonId = u64;

/// A 32-byte account identifier, as the chain represents accounts.
pub type AccountId = [u8; 32];

/// A 32-byte hash of the content an IPF records.
pub type ContentHash = [u8; 32];

/// Reference to one asset of either class, used when a set operation
/// names heterogeneous members. The contract passes it through without
/// reading it.
#[derive(Clone, Copy, Debug, PartialEq, Eq, Structural)]
pub enum AnyId {
    IpfId(CommonId),
    IpsId(CommonId),
}

} // verus!
