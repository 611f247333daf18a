use filecoin_proofs_registry::{
    PoRepConfig, PoRepProofPartitions, PoStConfig, RegisteredPoStProof, RegisteredSealProof,
    SectorSize, Version,
};

const SEAL_PROOFS: [RegisteredSealProof; 5] = [
    RegisteredSealProof::StackedDrg1KiBV1,
    RegisteredSealProof::StackedDrg16MiBV1,
    RegisteredSealProof::StackedDrg256MiBV1,
    RegisteredSealProof::StackedDrg1GiBV1,
    RegisteredSealProof::StackedDrg32GiBV1,
];

const POST_PROOFS: [RegisteredPoStProof; 5] = [
    RegisteredPoStProof::StackedDrg1KiBV1,
    RegisteredPoStProof::StackedDrg16MiBV1,
    RegisteredPoStProof::StackedDrg256MiBV1,
    RegisteredPoStProof::StackedDrg1GiBV1,
    RegisteredPoStProof::StackedDrg32GiBV1,
];

const SIZES: [u64; 5] = [1024, 1 << 24, 1 << 28, 1 << 30, 1 << 35];

#[test]
fn every_proof_is_version_one() {
    for p in SEAL_PROOFS {
        assert_eq!(p.version(), Version::V1);
    }
    for p in POST_PROOFS {
        assert_eq!(p.version(), Version::V1);
    }
}

#[test]
fn seal_sector_sizes() {
    for (p, size) in SEAL_PROOFS.iter().zip(SIZES) {
        assert_eq!(p.sector_size(), SectorSize(size));
    }
}

#[test]
fn post_sector_sizes() {
    for (p, size) in POST_PROOFS.iter().zip(SIZES) {
        assert_eq!(p.sector_size(), SectorSize(size));
    }
}

#[test]
fn single_partition_proof_len_is_fixed() {
    for p in SEAL_PROOFS {
        assert_eq!(p.single_partition_proof_len(), 192);
    }
    for p in POST_PROOFS {
        assert_eq!(p.single_partition_proof_len(), 192);
    }
}

#[test]
fn post_proofs_are_single_partition() {
    for p in POST_PROOFS {
        assert_eq!(p.partitions(), 1);
    }
}

#[test]
fn seal_partitions_follow_the_table_entry() {
    for p in SEAL_PROOFS {
        assert_eq!(p.partitions_with(Some(10)), 10);
        assert_eq!(p.partitions_with(Some(3)), 3);
        assert_eq!(p.partitions_with(None), 1);
    }
}

#[test]
fn seal_one_kib_config_with_ten_partitions() {
    let config = RegisteredSealProof::StackedDrg1KiBV1.as_v1_config_with(Some(10));
    assert_eq!(
        config,
        PoRepConfig {
            sector_size: SectorSize(1024),
            partitions: PoRepProofPartitions(10),
        }
    );
}

#[test]
fn seal_one_kib_config_reads_the_shared_table() {
    filecoin_proofs::constants::POREP_PARTITIONS
        .write()
        .unwrap()
        .insert(1024, 10);
    let config = RegisteredSealProof::StackedDrg1KiBV1.as_v1_config();
    assert_eq!(config.sector_size, SectorSize(1024));
    assert_eq!(config.partitions, PoRepProofPartitions(10));
    assert_eq!(RegisteredSealProof::StackedDrg1KiBV1.partitions(), 10);
}

#[test]
fn seal_32_gib_config_uses_the_default_table() {
    let config = RegisteredSealProof::StackedDrg32GiBV1.as_v1_config();
    assert_eq!(config.sector_size, SectorSize(1 << 35));
    assert_eq!(config.partitions, PoRepProofPartitions(10));
}

#[test]
fn seal_size_missing_from_table_is_single_partition() {
    let config = RegisteredSealProof::StackedDrg256MiBV1.as_v1_config();
    assert_eq!(
        config,
        PoRepConfig {
            sector_size: SectorSize(1 << 28),
            partitions: PoRepProofPartitions(1),
        }
    );
}

#[test]
fn seal_config_is_deterministic() {
    for p in SEAL_PROOFS {
        assert_eq!(p.as_v1_config_with(Some(4)), p.as_v1_config_with(Some(4)));
        assert_eq!(p.as_v1_config_with(None), p.as_v1_config_with(None));
    }
    // The 1 KiB entry of the shared table is rewritten by another test.
    for p in &SEAL_PROOFS[1..] {
        assert_eq!(p.as_v1_config(), p.as_v1_config());
        assert_eq!(p.as_v1_config().sector_size, p.sector_size());
        assert_eq!(p.as_v1_config().partitions, PoRepProofPartitions(p.partitions()));
    }
}

#[test]
fn post_one_gib_config() {
    let config = RegisteredPoStProof::StackedDrg1GiBV1.as_v1_config();
    assert_eq!(
        config,
        PoStConfig {
            sector_size: SectorSize(1 << 30),
            challenge_count: 10,
            challenged_nodes: 1,
        }
    );
}

#[test]
fn post_config_is_fixed_but_for_the_size() {
    for (p, size) in POST_PROOFS.iter().zip(SIZES) {
        let config = p.as_v1_config();
        assert_eq!(config.sector_size, SectorSize(size));
        assert_eq!(config.challenge_count, 10);
        assert_eq!(config.challenged_nodes, 1);
    }
}
