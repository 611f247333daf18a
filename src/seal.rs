//! Sealing proofs: the proof that a sector's data was replicated.
use vstd::prelude::*;

use crate::params::{
    porep_partitions_setting, sector_size_16_mib, sector_size_1_gib, sector_size_32_gib,
    single_partition_proof_len, spec_sector_size_16_mib, spec_sector_size_1_gib,
    spec_sector_size_32_gib, spec_single_partition_proof_len, FALLBACK_POREP_PARTITIONS,
    SECTOR_SIZE_256_MIB, SECTOR_SIZE_ONE_KIB,
};
use crate::types::{PoRepConfig, PoRepProofPartitions, SectorSize, Version};

verus! {

/// Available seal proofs.
#[derive(Clone, Copy, Debug, PartialEq, Eq, Hash, Structural)]
pub enum RegisteredSealProof {
    StackedDrg1KiBV1,
    StackedDrg16MiBV1,
    StackedDrg256MiBV1,
    StackedDrg1GiBV1,
    StackedDrg32GiBV1,
}

impl RegisteredSealProof {
    /// The protocol version of this proof.
    pub open spec fn spec_version(self) -> Version {
        match self {
            RegisteredSealProof::StackedDrg1KiBV1
            | RegisteredSealProof::StackedDrg16MiBV1
            | RegisteredSealProof::StackedDrg256MiBV1
            | RegisteredSealProof::StackedDrg1GiBV1
            | RegisteredSealProof::StackedDrg32GiBV1 => Version::V1,
        }
    }

    /// The sector size of this proof, in bytes.
    pub open spec fn spec_sector_size(self) -> u64 {
        match self {
            RegisteredSealProof::StackedDrg1KiBV1 => SECTOR_SIZE_ONE_KIB,
            RegisteredSealProof::StackedDrg16MiBV1 => spec_sector_size_16_mib(),
            RegisteredSealProof::StackedDrg256MiBV1 => SECTOR_SIZE_256_MIB,
            RegisteredSealProof::StackedDrg1GiBV1 => spec_sector_size_1_gib(),
            RegisteredSealProof::StackedDrg32GiBV1 => spec_sector_size_32_gib(),
        }
    }

    /// The partition count of this proof, given what the shared partition
    /// table holds for its sector size.
    pub open spec fn spec_partitions(self, setting: Option<u8>) -> u8 {
        match setting {
            Some(p) => p,
            None => FALLBACK_POREP_PARTITIONS,
        }
    }

    /// The proof length of one partition of this proof.
    pub open spec fn spec_single_partition_proof_len(self) -> usize {
        spec_single_partition_proof_len()
    }

    /// The configuration of this proof, given what the shared partition
    /// table holds for its sector size.
    pub open spec fn spec_config(self, setting: Option<u8>) -> PoRepConfig {
        PoRepConfig {
            sector_size: SectorSize(self.spec_sector_size()),
            partitions: PoRepProofPartitions(self.spec_partitions(setting)),
        }
    }

    /// Return the version for this proof.
    pub fn version(self) -> (r: Version)
        ensures
            r == self.spec_version(),
            r == Version::V1,
    {
        match self {
            RegisteredSealProof::StackedDrg1KiBV1
            | RegisteredSealProof::StackedDrg16MiBV1
            | RegisteredSealProof::StackedDrg256MiBV1
            | RegisteredSealProof::StackedDrg1GiBV1
            | RegisteredSealProof::StackedDrg32GiBV1 => Version::V1,
        }
    }

    /// Return the sector size for this proof.
    pub fn sector_size(self) -> (r: SectorSize)
        ensures
            r.0 == self.spec_sector_size(),
    {
        let size = match self {
            RegisteredSealProof::StackedDrg1KiBV1 => SECTOR_SIZE_ONE_KIB,
            RegisteredSealProof::StackedDrg16MiBV1 => sector_size_16_mib(),
            RegisteredSealProof::StackedDrg256MiBV1 => SECTOR_SIZE_256_MIB,
            RegisteredSealProof::StackedDrg1GiBV1 => sector_size_1_gib(),
            RegisteredSealProof::StackedDrg32GiBV1 => sector_size_32_gib(),
        };
        SectorSize(size)
    }

    /// Return the number of partitions for this proof, given the entry of
    /// the shared partition table for its sector size (`None` when there is
    /// none).
    pub fn partitions_with(self, setting: Option<u8>) -> (r: u8)
        ensures
            r == self.spec_partitions(setting),
    {
        match setting {
            Some(p) => p,
            None => FALLBACK_POREP_PARTITIONS,
        }
    }

    /// Return the number of partitions for this proof, as the shared
    /// partition table gives it now.
    pub fn partitions(self) -> (r: u8)
        ensures
            exists|setting: Option<u8>| r == self.spec_partitions(setting),
    {
        let setting = porep_partitions_setting(self.sector_size().0);
        self.partitions_with(setting)
    }

    /// Return the proof length of one partition of this proof.
    pub fn single_partition_proof_len(self) -> (r: usize)
        ensures
            r == self.spec_single_partition_proof_len(),
    {
        match self {
            RegisteredSealProof::StackedDrg1KiBV1
            | RegisteredSealProof::StackedDrg16MiBV1
            | RegisteredSealProof::StackedDrg256MiBV1
            | RegisteredSealProof::StackedDrg1GiBV1
            | RegisteredSealProof::StackedDrg32GiBV1 => single_partition_proof_len(),
        }
    }

    /// Return the version 1 configuration of this proof, given the entry of
    /// the shared partition table for its sector size.
    pub fn as_v1_config_with(self, setting: Option<u8>) -> (r: PoRepConfig)
        ensures
            r == self.spec_config(setting),
    {
        let version = self.version();
        assert(version == Version::V1);
        PoRepConfig {
            sector_size: self.sector_size(),
            partitions: PoRepProofPartitions(self.partitions_with(setting)),
        }
    }

    /// Return the version 1 configuration of this proof, with the partition
    /// count that the shared partition table gives now.
    pub fn as_v1_config(self) -> (r: PoRepConfig)
        ensures
            r.sector_size.0 == self.spec_sector_size(),
            exists|setting: Option<u8>| r == self.spec_config(setting),
    {
        let setting = porep_partitions_setting(self.sector_size().0);
        self.as_v1_config_with(setting)
    }
}

} // verus!
