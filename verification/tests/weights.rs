use basilisk::weights::{democracy, liquidity_mining, pallet_elections_phragmen, pallet_tips, xyk};
use basilisk::weights::{RuntimeDbWeight, Weight};

fn db() -> RuntimeDbWeight {
    RuntimeDbWeight { read: 25_000_000, write: 100_000_000 }
}

#[test]
fn weight_arithmetic_saturates() {
    let w = Weight::from_parts(u64::MAX - 1, 5).saturating_add(Weight::from_parts(10, 7));
    assert_eq!(w, Weight::from_parts(u64::MAX, 12));
    assert_eq!(Weight::from_parts(3, u64::MAX / 2 + 1).saturating_mul(2), Weight::from_parts(6, u64::MAX));
    assert_eq!(Weight::from_ref_time(9), Weight::from_parts(9, 0));
    assert_eq!(Weight::zero(), Weight::from_parts(0, 0));
    assert_eq!(db().reads(3), Weight::from_parts(75_000_000, 0));
    assert_eq!(db().writes(2), Weight::from_parts(200_000_000, 0));
    assert_eq!(RuntimeDbWeight::rocks_db(), db());
}

#[test]
fn old_style_weight_counts_reads_and_writes() {
    // 60_700_000 + 3 reads + 3 writes
    assert_eq!(democracy::BasiliskWeight::propose(db()), Weight::from_parts(60_700_000 + 75_000_000 + 300_000_000, 0));
    // 34_526_000 + 170_000 per second + 1 read + 1 write
    assert_eq!(
        democracy::BasiliskWeight::second(db(), 10),
        Weight::from_parts(34_526_000 + 1_700_000 + 25_000_000 + 100_000_000, 0)
    );
}

#[test]
fn component_reads_and_writes_grow_with_the_component() {
    // 49_410_000 + 5_682_000 r + (4 + r) reads + (4 + r) writes
    let w = democracy::BasiliskWeight::delegate(db(), 2);
    assert_eq!(w.ref_time, 49_410_000 + 11_364_000 + 6 * 25_000_000 + 6 * 100_000_000);
    assert!(democracy::BasiliskWeight::delegate(db(), 3).ref_time > w.ref_time);
}

#[test]
fn new_style_weight_has_a_proof_size() {
    let w = pallet_elections_phragmen::BasiliskWeight::vote_equal(db(), 4);
    assert_eq!(w.ref_time, 25_332_904 + 4 * 167_145 + 6 * 25_000_000 + 2 * 100_000_000);
    assert_eq!(w.proof_size, 4_764 + 4 * 87);
    let w = pallet_elections_phragmen::BasiliskWeight::election_phragmen(db(), 1, 2, 3);
    assert_eq!(
        w.ref_time,
        2_506_000_000 + 2 * 10_087_217 + 3 * 620_378 + (39 + 1 + 2) * 25_000_000 + (6 + 1) * 100_000_000
    );
    assert_eq!(w.proof_size, 278_441 + 2_346 + 3 * 13 + 2 * 2_557);
    assert_eq!(
        pallet_elections_phragmen::BasiliskWeight::remove_member_without_replacement(db()),
        Weight::from_parts(500_000_000_000, 0)
    );
}

#[test]
fn huge_database_costs_saturate() {
    let expensive = RuntimeDbWeight { read: u64::MAX / 2, write: u64::MAX / 2 };
    assert_eq!(pallet_tips::BasiliskWeight::tip_new(expensive, 1, 1).ref_time, u64::MAX);
    assert_eq!(xyk::BasiliskWeight::create_pool(expensive).ref_time, u64::MAX);
}

#[test]
fn default_weights_use_rocks_db() {
    assert_eq!(liquidity_mining::create_farm(), liquidity_mining::BasiliskWeight::create_farm(db()));
    assert_eq!(liquidity_mining::create_farm().ref_time, 175_953_000 + 3 * 25_000_000 + 4 * 100_000_000);
}
