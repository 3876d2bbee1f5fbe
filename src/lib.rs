//! An append-only registry of content hashes, owned by the identity that
//! created it.

pub mod registry;

pub use registry::{AccountId, GroupContract, FileHash, RegistryView};
