//! The boundary between the contract and its host runtime: the chain
//! extension the host implements, the errors a host call can report,
//! and the marker for the environment the contract targets.

use crate::ids::{AccountId, AnyId, CommonId, ContentHash};
use vstd::prelude::*;

verus! {

/// Error a host call reports back to the contract.
#[derive(Clone, Copy, Debug, PartialEq, Eq, Structural)]
pub enum ExtensionError {
    /// The host could not obtain a randomness source while minting.
    FailGetRandomSource,
    /// Metadata handed to the host exceeds the size the runtime allows.
    MaxMetadataExceeded,
    /// The host reported a status code this contract does not know.
    UnknownStatusCode,
}

impl ExtensionError {
    /// Decodes the status word of a finished host call: zero means
    /// success, one names the known failure, and any other word is
    /// surfaced as an unknown error rather than halting the contract.
    pub fn from_status_code(status_code: u32) -> (r: Result<(), ExtensionError>)
        ensures
            status_code == 0 ==> r matches Ok(()),
            status_code == 1 ==> r == Err::<(), ExtensionError>(ExtensionError::FailGetRandomSource),
            status_code > 1 ==> r == Err::<(), ExtensionError>(ExtensionError::UnknownStatusCode),
    {
        match status_code {
            0 => Ok(()),
            1 => Err(ExtensionError::FailGetRandomSource),
            _ => Err(ExtensionError::UnknownStatusCode),
        }
    }
}

/// The chain extension the host runtime provides. The contract is the
/// caller: the host implements each operation, owns the authoritative
/// asset state, and decides success or failure, so no method promises
/// anything about its outcome.
pub trait InvarchExtension {
    /// Mints an IPF from its metadata and content hash; on success the
    /// host returns the id it issued.
    fn ipf_mint(&mut self, metadata: Vec<u8>, data: ContentHash) -> Result<CommonId, ExtensionError>;

    /// Burns the IPF with the given id.
    fn ipf_burn(&mut self, ipf_id: CommonId) -> Result<(), ExtensionError>;

    /// Creates an IPS over the given member ids; on success the host
    /// returns the id it issued.
    fn ips_create(
        &mut self,
        metadata: Vec<u8>,
        data: Vec<CommonId>,
        allow_replica: bool,
    ) -> Result<CommonId, ExtensionError>;

    /// Appends the given assets to an IPS, optionally replacing its
    /// metadata.
    fn ips_append(
        &mut self,
        ips_id: CommonId,
        assets: Vec<AnyId>,
        new_metadata: Option<Vec<u8>>,
    ) -> Result<(), ExtensionError>;

    /// Removes the given assets from an IPS, each with the account that
    /// receives it, optionally replacing the set's metadata.
    fn ips_remove(
        &mut self,
        ips_id: CommonId,
        assets: Vec<(AnyId, AccountId)>,
        new_metadata: Option<Vec<u8>>,
    ) -> Result<(), ExtensionError>;

    /// Marks an IPS as allowing replicas.
    fn ips_allow_replica(&mut self, ips_id: CommonId) -> Result<(), ExtensionError>;

    /// Marks an IPS as disallowing replicas.
    fn ips_disallow_replica(&mut self, ips_id: CommonId) -> Result<(), ExtensionError>;

    /// Creates a replica of an IPS; on success the host returns the id
    /// of the new replica.
    fn ips_create_replica(&mut self, ips_id: CommonId) -> Result<CommonId, ExtensionError>;

    /// Mints `amount` IPT of the token tied to an IPS to `target`.
    fn ipt_mint(
        &mut self,
        target: AccountId,
        ipt_id: CommonId,
        amount: u128,
    ) -> Result<(), ExtensionError>;
}

/// Marker for the chain environment the contract targets: the default
/// account, balance, hash and block types of the host, reached through
/// the [`InvarchExtension`] chain extension. Carries no data.
#[derive(Clone, Copy, Debug, PartialEq, Eq, Structural)]
pub struct InvarchEnvironment;

} // verus!
