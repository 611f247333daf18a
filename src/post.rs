//! Storage proofs: the proof that a sector's data is still held.
use vstd::prelude::*;

use crate::params::{
    post_challenge_count, sector_size_16_mib, sector_size_1_gib, sector_size_32_gib,
    single_partition_proof_len, spec_post_challenge_count, spec_sector_size_16_mib,
    spec_sector_size_1_gib, spec_sector_size_32_gib, spec_single_partition_proof_len,
    POST_CHALLENGED_NODES, SECTOR_SIZE_256_MIB, SECTOR_SIZE_ONE_KIB,
};
use crate::types::{PoStConfig, SectorSize, Version};

verus! {

/// Available storage proofs.
#[derive(Clone, Copy, Debug, PartialEq, Eq, Hash, Structural)]
pub enum RegisteredPoStProof {
    StackedDrg1KiBV1,
    StackedDrg16MiBV1,
    StackedDrg256MiBV1,
    StackedDrg1GiBV1,
    StackedDrg32GiBV1,
}

impl RegisteredPoStProof {
    /// The protocol version of this proof.
    pub open spec fn spec_version(self) -> Version {
        match self {
            RegisteredPoStProof::StackedDrg1KiBV1
            | RegisteredPoStProof::StackedDrg16MiBV1
            | RegisteredPoStProof::StackedDrg256MiBV1
            | RegisteredPoStProof::StackedDrg1GiBV1
            | RegisteredPoStProof::StackedDrg32GiBV1 => Version::V1,
        }
    }

    /// The sector size of this proof, in bytes.
    pub open spec fn spec_sector_size(self) -> u64 {
        match self {
            RegisteredPoStProof::StackedDrg1KiBV1 => SECTOR_SIZE_ONE_KIB,
            RegisteredPoStProof::StackedDrg16MiBV1 => spec_sector_size_16_mib(),
            RegisteredPoStProof::StackedDrg256MiBV1 => SECTOR_SIZE_256_MIB,
            RegisteredPoStProof::StackedDrg1GiBV1 => spec_sector_size_1_gib(),
            RegisteredPoStProof::StackedDrg32GiBV1 => spec_sector_size_32_gib(),
        }
    }

    /// The partition count of this proof: storage proofs are single-partition.
    pub open spec fn spec_partitions(self) -> u8 {
        1
    }

    /// The proof length of one partition of this proof.
    pub open spec fn spec_single_partition_proof_len(self) -> usize {
        spec_single_partition_proof_len()
    }

    /// The configuration of this proof.
    pub open spec fn spec_config(self) -> PoStConfig {
        PoStConfig {
            sector_size: SectorSize(self.spec_sector_size()),
            challenge_count: spec_post_challenge_count(),
            challenged_nodes: POST_CHALLENGED_NODES,
        }
    }

    /// Return the version for this proof.
    pub fn version(self) -> (r: Version)
        ensures
            r == self.spec_version(),
            r == Version::V1,
    {
        match self {
            RegisteredPoStProof::StackedDrg1KiBV1
            | RegisteredPoStProof::StackedDrg16MiBV1
            | RegisteredPoStProof::StackedDrg256MiBV1
            | RegisteredPoStProof::StackedDrg1GiBV1
            | RegisteredPoStProof::StackedDrg32GiBV1 => Version::V1,
        }
    }

    /// Return the sector size for this proof.
    pub fn sector_size(self) -> (r: SectorSize)
        ensures
            r.0 == self.spec_sector_size(),
    {
        let size = match self {
            RegisteredPoStProof::StackedDrg1KiBV1 => SECTOR_SIZE_ONE_KIB,
            RegisteredPoStProof::StackedDrg16MiBV1 => sector_size_16_mib(),
            RegisteredPoStProof::StackedDrg256MiBV1 => SECTOR_SIZE_256_MIB,
            RegisteredPoStProof::StackedDrg1GiBV1 => sector_size_1_gib(),
            RegisteredPoStProof::StackedDrg32GiBV1 => sector_size_32_gib(),
        };
        SectorSize(size)
    }

    /// Return the number of partitions for this proof.
    pub fn partitions(self) -> (r: u8)
        ensures
            r == self.spec_partitions(),
            r == 1,
    {
        match self {
            RegisteredPoStProof::StackedDrg1KiBV1
            | RegisteredPoStProof::StackedDrg16MiBV1
            | RegisteredPoStProof::StackedDrg256MiBV1
            | RegisteredPoStProof::StackedDrg1GiBV1
            | RegisteredPoStProof::StackedDrg32GiBV1 => 1,
        }
    }

    /// Return the proof length of one partition of this proof.
    pub fn single_partition_proof_len(self) -> (r: usize)
        ensures
            r == self.spec_single_partition_proof_len(),
    {
        match self {
            RegisteredPoStProof::StackedDrg1KiBV1
            | RegisteredPoStProof::StackedDrg16MiBV1
            | RegisteredPoStProof::StackedDrg256MiBV1
            | RegisteredPoStProof::StackedDrg1GiBV1
            | RegisteredPoStProof::StackedDrg32GiBV1 => single_partition_proof_len(),
        }
    }

    /// Return the version 1 configuration of this proof.
    pub fn as_v1_config(self) -> (r: PoStConfig)
        ensures
            r == self.spec_config(),
    {
        let version = self.version();
        assert(version == Version::V1);
        PoStConfig {
            sector_size: self.sector_size(),
            challenge_count: post_challenge_count(),
            challenged_nodes: POST_CHALLENGED_NODES,
        }
    }
}

} // verus!
