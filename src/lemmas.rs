//! Facts that hold of every identifier of both catalogs.
use vstd::prelude::*;

use crate::params::{spec_post_challenge_count, POST_CHALLENGED_NODES};
use crate::post::RegisteredPoStProof;
use crate::seal::RegisteredSealProof;
use crate::types::{PoRepConfig, Version};

verus! {

/// Every sealing and every storage proof identifier belongs to version 1, the
/// one version that is supported.
pub proof fn lemma_version_total(seal: RegisteredSealProof, post: RegisteredPoStProof)
    ensures
        seal.spec_version() == Version::V1,
        post.spec_version() == Version::V1,
{
}

/// The configuration of a proof carries the proof's own sector size, whatever
/// the shared partition table holds.
pub proof fn lemma_config_sector_size(
    seal: RegisteredSealProof,
    setting: Option<u8>,
    post: RegisteredPoStProof,
)
    ensures
        seal.spec_config(setting).sector_size.0 == seal.spec_sector_size(),
        post.spec_config().sector_size.0 == post.spec_sector_size(),
{
}

/// The configuration of a sealing proof carries the proof's partition count,
/// and two configurations taken while the shared partition table holds the
/// same entry are identical.
pub proof fn lemma_seal_config_partitions(
    seal: RegisteredSealProof,
    setting: Option<u8>,
    first: PoRepConfig,
    second: PoRepConfig,
)
    requires
        first == seal.spec_config(setting),
        second == seal.spec_config(setting),
    ensures
        first.partitions.0 == seal.spec_partitions(setting),
        first == second,
{
}

/// A storage proof is single-partition, and its challenge structure is the
/// same fixed pair of constants for every identifier.
pub proof fn lemma_post_config_fixed(post: RegisteredPoStProof, other: RegisteredPoStProof)
    ensures
        post.spec_partitions() == 1,
        post.spec_config().challenge_count == spec_post_challenge_count(),
        post.spec_config().challenged_nodes == POST_CHALLENGED_NODES,
        post.spec_config().challenge_count == other.spec_config().challenge_count,
        post.spec_config().challenged_nodes == other.spec_config().challenged_nodes,
{
}

} // verus!
