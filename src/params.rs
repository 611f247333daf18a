//! Process-wide proving parameters: the fixed constants of the catalog and
//! the shared, tunable partition table.
use vstd::prelude::*;

verus! {

/// Bytes in a 1 KiB sector.
pub const SECTOR_SIZE_ONE_KIB: u64 = 1024;

/// Bytes in a 256 MiB sector.
pub const SECTOR_SIZE_256_MIB: u64 = 268435456;

/// Nodes challenged per challenge of a storage proof.
pub const POST_CHALLENGED_NODES: usize = 1;

/// Partition count of a sealing proof whose sector size has no entry in the
/// shared partition table.
pub const FALLBACK_POREP_PARTITIONS: u8 = 1;

/// Bytes in a 16 MiB sector.
pub open spec fn spec_sector_size_16_mib() -> u64 {
    16777216
}

/// Bytes in a 1 GiB sector.
pub open spec fn spec_sector_size_1_gib() -> u64 {
    1073741824
}

/// Bytes in a 32 GiB sector.
pub open spec fn spec_sector_size_32_gib() -> u64 {
    34359738368
}

/// Bytes in the proof of one partition.
pub open spec fn spec_single_partition_proof_len() -> usize {
    192
}

/// Challenges in a storage proof.
pub open spec fn spec_post_challenge_count() -> usize {
    10
}

/// Relies on filecoin_proofs::constants::SECTOR_SIZE_16_MIB, which is `1 << 24`.
#[verifier::external_body]
pub(crate) fn sector_size_16_mib() -> (r: u64)
    ensures
        r == spec_sector_size_16_mib(),
{
    filecoin_proofs::constants::SECTOR_SIZE_16_MIB
}

/// Relies on filecoin_proofs::constants::SECTOR_SIZE_1_GIB, which is `1 << 30`.
#[verifier::external_body]
pub(crate) fn sector_size_1_gib() -> (r: u64)
    ensures
        r == spec_sector_size_1_gib(),
{
    filecoin_proofs::constants::SECTOR_SIZE_1_GIB
}

/// Relies on filecoin_proofs::constants::SECTOR_SIZE_32_GIB, which is `1 << 35`.
#[verifier::external_body]
pub(crate) fn sector_size_32_gib() -> (r: u64)
    ensures
        r == spec_sector_size_32_gib(),
{
    filecoin_proofs::constants::SECTOR_SIZE_32_GIB
}

/// Relies on filecoin_proofs::constants::SINGLE_PARTITION_PROOF_LEN, which is 192.
#[verifier::external_body]
pub(crate) fn single_partition_proof_len() -> (r: usize)
    ensures
        r == spec_single_partition_proof_len(),
{
    filecoin_proofs::constants::SINGLE_PARTITION_PROOF_LEN
}

/// Relies on filecoin_proofs::constants::WINDOW_POST_CHALLENGE_COUNT, which is 10.
#[verifier::external_body]
pub(crate) fn post_challenge_count() -> (r: usize)
    ensures
        r == spec_post_challenge_count(),
{
    filecoin_proofs::constants::WINDOW_POST_CHALLENGE_COUNT
}

/// Relies on filecoin_proofs::constants::POREP_PARTITIONS, the process-wide
/// table of partition counts by sector size, read under its lock. The table
/// can be changed by the process at any time, so nothing is promised of the
/// value; a poisoned lock reads as no entry.
#[verifier::external_body]
pub(crate) fn porep_partitions_setting(sector_size: u64) -> (r: Option<u8>) {
    filecoin_proofs::constants::POREP_PARTITIONS.read().ok().and_then(
        |table| table.get(&sector_size).copied(),
    )
}

} // verus!
