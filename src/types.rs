use vstd::prelude::*;

verus! {

/// Protocol version of a proof identifier.
#[derive(Clone, Copy, Debug, PartialEq, Eq, Hash, Structural)]
pub enum Version {
    V1,
}

/// Size of a sector, in bytes.
#[derive(Clone, Copy, Debug, PartialEq, Eq, Hash, Structural)]
pub struct SectorSize(pub u64);

/// Number of partitions of a sealing proof.
#[derive(Clone, Copy, Debug, PartialEq, Eq, Hash, Structural)]
pub struct PoRepProofPartitions(pub u8);

/// Parameters of a sealing (replication) proof.
#[derive(Clone, Copy, Debug, PartialEq, Eq, Hash, Structural)]
pub struct PoRepConfig {
    pub sector_size: SectorSize,
    pub partitions: PoRepProofPartitions,
}

/// Parameters of a storage (space-time) proof.
#[derive(Clone, Copy, Debug, PartialEq, Eq, Hash, Structural)]
pub struct PoStConfig {
    pub sector_size: SectorSize,
    pub challenge_count: usize,
    pub challenged_nodes: usize,
}

} // verus!
