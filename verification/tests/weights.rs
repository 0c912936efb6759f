use frame_support::weights::constants::{
    WEIGHT_REF_TIME_PER_MICROS, WEIGHT_REF_TIME_PER_MILLIS, WEIGHT_REF_TIME_PER_NANOS,
};
use kilt::delegation_weights;
use kilt::did_weights;
use kilt::launch_weights::{SubstrateWeight, WeightInfo};
use kilt::spiritnet_db_weights::RocksDbWeight;
use kilt::vesting_weights;
use kilt::weight::DbWeight;

/// `fixed + per * n`, saturated the way a weight is.
fn affine(fixed: u128, per: u128, n: u128) -> u64 {
    let exact = fixed + per * n;
    if exact > u64::MAX as u128 {
        u64::MAX
    } else {
        exact as u64
    }
}

fn db(read: u64, write: u64) -> DbWeight {
    DbWeight { read, write }
}

#[test]
fn bound() {
    let w = RocksDbWeight::get();
    // At least 1 µs.
    assert!(w.reads(1) >= WEIGHT_REF_TIME_PER_MICROS, "Read weight should be at least 1 µs.");
    assert!(w.writes(1) >= WEIGHT_REF_TIME_PER_MICROS, "Write weight should be at least 1 µs.");
    // At most 1 ms.
    assert!(w.reads(1) <= WEIGHT_REF_TIME_PER_MILLIS, "Read weight should be at most 1 ms.");
    assert!(w.writes(1) <= WEIGHT_REF_TIME_PER_MILLIS, "Write weight should be at most 1 ms.");
}

#[test]
fn spiritnet_db_weight_values() {
    let w = RocksDbWeight::get();
    assert_eq!(w.read, 80_987 * WEIGHT_REF_TIME_PER_NANOS);
    assert_eq!(w.write, 142_577 * WEIGHT_REF_TIME_PER_NANOS);
    assert_eq!(w.reads(3), 242_961_000);
    assert_eq!(w.writes(2), 285_154_000);
}

#[test]
fn db_weight_saturates() {
    let w = db(u64::MAX / 2 + 1, 7);
    assert_eq!(w.reads(2), u64::MAX);
    assert_eq!(w.reads(0), 0);
    assert_eq!(w.writes(u64::MAX), u64::MAX);
    assert_eq!(w.writes(3), 21);
}

#[test]
fn launch_default_weights_use_substrate_rocksdb() {
    let rocks = frame_support::weights::constants::RocksDbWeight::get();
    let by_hand = SubstrateWeight { db_weight: db(rocks.read, rocks.write) };
    assert_eq!(().force_unlock(2), 912_804_000);
    assert_eq!(().force_unlock(2), by_hand.force_unlock(2));
    assert_eq!(().change_transfer_account(), 103_190_000);
    assert_eq!(().locked_transfer(), 142_908_000 + 6 * 25_000_000 + 6 * 100_000_000);
    assert_eq!(().migrate_genesis_account_vesting(), 155_271_000 + 9 * 25_000_000 + 6 * 100_000_000);
    assert_eq!(().migrate_genesis_account_locking(), 163_097_000 + 10 * 25_000_000 + 7 * 100_000_000);
    assert_eq!(
        ().migrate_multiple_genesis_accounts_vesting(3),
        49_280_000 + 101_621_000 * 3 + 25_000_000 * (4 + 5 * 3) + 100_000_000 * (3 + 3 * 3)
    );
    assert_eq!(
        ().migrate_multiple_genesis_accounts_locking(3),
        60_077_000 + 103_402_000 * 3 + 25_000_000 * (5 + 5 * 3) + 100_000_000 * (4 + 3 * 3)
    );
}

#[test]
fn launch_weights_with_runtime_db_weight() {
    let w = SubstrateWeight { db_weight: db(10, 1_000) };
    assert_eq!(w.change_transfer_account(), 3_191_000);
    assert_eq!(w.force_unlock(0), 28_682_000 + 10 + 1_000);
    assert_eq!(w.force_unlock(5), affine(28_682_000 + 10 + 1_000, 29_561_000 + 20 + 3_000, 5));
    assert_eq!(
        w.migrate_multiple_genesis_accounts_locking(u32::MAX),
        affine(60_077_000 + 50 + 4_000, 103_402_000 + 50 + 3_000, u32::MAX as u128)
    );
}

#[test]
fn launch_weights_saturate_at_the_limit() {
    let w = SubstrateWeight { db_weight: db(u64::MAX, u64::MAX) };
    assert_eq!(w.change_transfer_account(), u64::MAX);
    assert_eq!(w.force_unlock(0), u64::MAX);
    let big = SubstrateWeight { db_weight: db(u64::MAX / 2, 0) };
    assert_eq!(big.force_unlock(1), u64::MAX);
    assert_eq!(big.force_unlock(0), 28_682_000 + u64::MAX / 2);
}

#[test]
fn launch_weights_grow_with_accounts() {
    let w = SubstrateWeight { db_weight: db(25_000_000, 100_000_000) };
    for n in 0..50u32 {
        assert!(w.force_unlock(n) <= w.force_unlock(n + 1));
        assert!(w.migrate_multiple_genesis_accounts_vesting(n) < w.migrate_multiple_genesis_accounts_vesting(n + 1));
        assert!(w.migrate_multiple_genesis_accounts_locking(n) < w.migrate_multiple_genesis_accounts_locking(n + 1));
    }
}

#[test]
fn delegation_weights_values() {
    let w = delegation_weights::WeightInfo { db_weight: db(25_000_000, 100_000_000) };
    assert_eq!(w.create_root(), 45_635_000 + 50_000_000 + 100_000_000);
    assert_eq!(w.add_delegation(), 142_316_000 + 100_000_000 + 200_000_000);
    assert_eq!(
        w.revoke_root(4),
        48_761_000 + 31_784_000 * 4 + 25_000_000 * (2 + 2 * 4) + 100_000_000 * (1 + 4)
    );
    assert_eq!(
        w.revoke_delegation_leaf(3, 7),
        52_521_000 + 93_000 * 3 + 8_110_000 * 7 + 25_000_000 * (2 + 7) + 100_000_000
    );
    assert_eq!(w.revoke_delegation_root_child(0, 0), 21_746_000);
    assert_eq!(
        w.revoke_delegation_root_child(2, 0),
        21_746_000 + 32_601_000 * 2 + 25_000_000 * 4 + 100_000_000 * 2
    );
}

#[test]
fn delegation_root_child_ignores_parent_count() {
    let w = delegation_weights::WeightInfo { db_weight: db(25_000_000, 100_000_000) };
    for c in [0u32, 1, 10, u32::MAX] {
        assert_eq!(w.revoke_delegation_root_child(5, c), w.revoke_delegation_root_child(5, 0));
    }
    assert!(w.revoke_delegation_leaf(5, 2) < w.revoke_delegation_leaf(5, 3));
    assert!(w.revoke_delegation_leaf(5, 2) < w.revoke_delegation_leaf(6, 2));
}

#[test]
fn did_weights_values() {
    let w = did_weights::WeightInfo { db_weight: db(25_000_000, 100_000_000) };
    assert_eq!(
        w.create_ed25519_keys(2, 3),
        155_554_000 + 2_340_000 * 2 + 10_183_000 * 3 + 4 * 25_000_000 + 100_000_000 * (4 + 3)
    );
    assert_eq!(
        w.create_sr25519_keys(0, 1),
        157_851_000 + 10_523_000 + 4 * 25_000_000 + 100_000_000 * 5
    );
    assert_eq!(
        w.create_ecdsa_keys(10, 0),
        275_184_000 + 2_307_000 * 10 + 4 * 25_000_000 + 4 * 100_000_000
    );
    assert_eq!(w.delete(25), 40_970_000 + 1_039_000 * 25 + 50_000_000 + 100_000_000 * 28);
    assert_eq!(w.reclaim_deposit(1), 45_659_000 + 1_037_000 + 50_000_000 + 400_000_000);
    assert_eq!(w.submit_did_call_ecdsa_key(), 203_208_000 + 125_000_000);
    assert_eq!(w.add_service_endpoint(), 43_232_000 + 75_000_000 + 200_000_000);
    assert_eq!(w.remove_service_endpoint(), 34_532_000 + 50_000_000 + 200_000_000);
    assert_eq!(w.signature_verification_sr25519(1_000), 25_823_000 + 4_000_000 + 25_000_000);
    assert_eq!(w.signature_verification_ed25519(0), 23_103_000 + 25_000_000);
    assert_eq!(w.signature_verification_ecdsa(10), 141_265_000 + 10_000 + 25_000_000);
    let one_read_one_write = [
        (w.submit_did_call_ed25519_key(), 85_657_000),
        (w.submit_did_call_sr25519_key(), 88_121_000),
        (w.set_ed25519_authentication_key(), 47_523_000),
        (w.set_sr25519_authentication_key(), 47_139_000),
        (w.set_ecdsa_authentication_key(), 47_445_000),
        (w.set_ed25519_delegation_key(), 47_109_000),
        (w.set_sr25519_delegation_key(), 47_153_000),
        (w.set_ecdsa_delegation_key(), 47_180_000),
        (w.remove_ed25519_delegation_key(), 43_349_000),
        (w.remove_sr25519_delegation_key(), 43_782_000),
        (w.remove_ecdsa_delegation_key(), 43_469_000),
        (w.set_ed25519_attestation_key(), 47_008_000),
        (w.set_sr25519_attestation_key(), 46_791_000),
        (w.set_ecdsa_attestation_key(), 46_654_000),
        (w.remove_ed25519_attestation_key(), 43_206_000),
        (w.remove_sr25519_attestation_key(), 43_339_000),
        (w.remove_ecdsa_attestation_key(), 43_217_000),
        (w.add_ed25519_key_agreement_key(), 45_677_000),
        (w.add_sr25519_key_agreement_key(), 45_880_000),
        (w.add_ecdsa_key_agreement_key(), 45_968_000),
        (w.remove_ed25519_key_agreement_key(), 43_709_000),
        (w.remove_sr25519_key_agreement_key(), 43_659_000),
        (w.remove_ecdsa_key_agreement_key(), 43_747_000),
    ];
    for (got, fixed) in one_read_one_write {
        assert_eq!(got, fixed + 125_000_000);
    }
}

#[test]
fn did_weights_grow_with_counts() {
    let w = did_weights::WeightInfo { db_weight: RocksDbWeight::get() };
    for k in 0..20u32 {
        assert!(w.create_ed25519_keys(k, 3) < w.create_ed25519_keys(k + 1, 3));
        assert!(w.create_sr25519_keys(3, k) < w.create_sr25519_keys(3, k + 1));
        assert!(w.create_ecdsa_keys(k, k) < w.create_ecdsa_keys(k + 1, k + 1));
        assert!(w.delete(k) < w.delete(k + 1));
        assert!(w.reclaim_deposit(k) < w.reclaim_deposit(k + 1));
        assert!(w.signature_verification_ecdsa(k) < w.signature_verification_ecdsa(k + 1));
    }
    assert_eq!(w.signature_verification_ed25519(u32::MAX), affine(23_103_000 + 80_987_000, 2_000, u32::MAX as u128));
}

#[test]
fn vesting_weights_values() {
    let w = vesting_weights::WeightInfo { db_weight: db(25_000_000, 100_000_000) };
    assert_eq!(w.vest_locked(3), 50_570_000 + 249_000 * 3 + 50_000_000 + 100_000_000);
    assert_eq!(w.vest_unlocked(0), 54_292_000 + 50_000_000 + 200_000_000);
    assert_eq!(w.vest_other_locked(1), 50_273_000 + 252_000 + 75_000_000 + 200_000_000);
    assert_eq!(w.vest_other_unlocked(2), 53_495_000 + 456_000 + 75_000_000 + 300_000_000);
    assert_eq!(w.vested_transfer(10), 119_157_000 + 1_500_000 + 75_000_000 + 300_000_000);
    assert_eq!(w.force_vested_transfer(49), 121_235_000 + 74_000 * 49 + 100_000_000 + 400_000_000);
    for l in 0..50u32 {
        assert!(w.vest_locked(l) < w.vest_locked(l + 1));
        assert!(w.force_vested_transfer(l) < w.force_vested_transfer(l + 1));
    }
    let saturated = vesting_weights::WeightInfo { db_weight: db(u64::MAX, 0) };
    assert_eq!(saturated.vest_locked(0), u64::MAX);
}
