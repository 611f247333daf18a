//! Registry of the supported sealing and storage proof configurations.
//!
//! Each proof identifier resolves, by a pure and total mapping, to its
//! protocol version, sector size, partition count and proof length, and to
//! the configuration object that the proving pipeline is built from.
pub mod lemmas;
pub mod params;
pub mod post;
pub mod seal;
pub mod types;

pub use post::RegisteredPoStProof;
pub use seal::RegisteredSealProof;
pub use types::{PoRepConfig, PoRepProofPartitions, PoStConfig, SectorSize, Version};
