use ntscrs::rng::pass_rng;
use rand::RngCore;
use ntscrs::noise::{cell_hash, neighbour_cell, JITTER_SEED};
use ntscrs::seed::{avalanche, key_seed, Seeder, SNOW, VIDEO_COMPOSITE};

#[test]
fn avalanche_values() {
    assert_eq!(avalanche(0), 0);
    assert_eq!(avalanche(1), 0x5692161d100b05e5);
}

#[test]
fn key_seed_values() {
    assert_eq!(key_seed(42, SNOW, 0), 0x4ce5af90a56c1d72);
    assert_eq!(key_seed(42, VIDEO_COMPOSITE, 0), 0xcdb1db42fdca906d);
    assert_eq!(key_seed(42, SNOW, 1), 0xb7dfb3c842e6ab91);
    assert_eq!(key_seed(0, 0, 0), 0xb49ab477bb8685e2);
}

#[test]
fn key_seed_is_deterministic_and_keyed() {
    assert_eq!(key_seed(7, 3, 11), key_seed(7, 3, 11));
    assert_ne!(key_seed(7, 3, 11), key_seed(7, 4, 11));
    assert_ne!(key_seed(7, 3, 11), key_seed(7, 3, 12));
    assert_ne!(key_seed(7, 3, 11), key_seed(8, 3, 11));
}

#[test]
fn seeder_chain_matches_key_seed() {
    let r = Seeder::new(42).mix_u64(SNOW).mix_u64(0).finalize();
    assert_eq!(r, key_seed(42, SNOW, 0));
}

#[test]
fn cell_hash_values() {
    assert_eq!(cell_hash(5, 7, 1), 0x5eca1a8b2738eab0);
    assert_eq!(cell_hash(5, 7, 2), 0x814c816a3db2cbe);
    assert_eq!(cell_hash(5, 7, JITTER_SEED), cell_hash(5, 7, 1));
}

#[test]
fn neighbour_cells_wrap() {
    assert_eq!(neighbour_cell(0, -1), u64::MAX);
    assert_eq!(neighbour_cell(u64::MAX, 1), 0);
    assert_eq!(neighbour_cell(10, 2), 12);
    assert_eq!(neighbour_cell(10, 0), 10);
}

#[test]
fn pass_generators_repeat_for_equal_keys() {
    let mut a = pass_rng(42, SNOW, 3);
    let mut b = pass_rng(42, SNOW, 3);
    let mut c = pass_rng(42, VIDEO_COMPOSITE, 3);
    let xs: Vec<u64> = (0..4).map(|_| a.next_u64()).collect();
    let ys: Vec<u64> = (0..4).map(|_| b.next_u64()).collect();
    let zs: Vec<u64> = (0..4).map(|_| c.next_u64()).collect();
    assert_eq!(xs, ys);
    assert_ne!(xs, zs);
}
