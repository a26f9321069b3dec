//! Contract-side library for an INV4-style intellectual-property asset
//! system (IPF: intellectual-property file, IPS: intellectual-property
//! set, IPT: intellectual-property token).
//!
//! The contract keeps two local lists of identifiers and forwards every
//! substantive operation to a host-provided chain extension, here the
//! [`environment::InvarchExtension`] trait. On success it records the
//! outcome in its lists and hands back the event to emit; on failure it
//! leaves its state untouched and surfaces the host's error.

pub mod contract;
pub mod environment;
pub mod ids;

pub use contract::AppendedToIps;
pub use contract::BurnedIpf;
pub use contract::CreatedNewIps;
pub use contract::Extension;
pub use contract::IpsAllowedReplica;
pub use contract::IpsDisallowedReplica;
pub use contract::IpsReplicaCreated;
pub use contract::IptMinted;
pub use contract::MintedNewIpf;
pub use contract::RemovedFromIps;
pub use environment::ExtensionError;
pub use environment::InvarchEnvironment;
pub use environment::InvarchExtension;
pub use ids::AccountId;
pub use ids::AnyId;
pub use ids::CommonId;
pub use ids::ContentHash;
