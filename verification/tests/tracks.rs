use basilisk::constants::{DAYS, HOURS, MINUTES, UNITS};
use basilisk::tracks::{CustomOrigin, Curve, PalletsOrigin, RawOrigin, TracksInfo};

#[test]
fn tracks_are_listed_by_id() {
    let tracks = TracksInfo::tracks();
    assert_eq!(tracks.len(), 9);
    let names: Vec<&str> = tracks.iter().map(|(_, t)| t.name).collect();
    assert_eq!(
        names,
        vec![
            "root",
            "whitelisted_caller",
            "referendum_canceller",
            "referendum_killer",
            "general_admin",
            "tech_fellowship_admin",
            "treasurer",
            "spender",
            "tipper"
        ]
    );
    for (i, (id, t)) in tracks.iter().enumerate() {
        assert_eq!(*id as usize, i);
        assert_eq!(t.decision_period, 7 * DAYS);
    }
}

#[test]
fn root_track_parameters() {
    let tracks = TracksInfo::tracks();
    let root = &tracks[0].1;
    assert_eq!(root.max_deciding, 1);
    assert_eq!(root.decision_deposit, 100_000_000 * UNITS);
    assert_eq!(root.prepare_period, 24 * HOURS);
    assert_eq!(root.confirm_period, 24 * HOURS);
    assert_eq!(root.min_enactment_period, 24 * HOURS);
    match root.min_approval {
        Curve::Reciprocal { delay, period, level, floor, ceil } => {
            assert_eq!((delay, period), (1, 7));
            assert_eq!((level.inner, floor.inner, ceil.inner), (800_000_000, 500_000_000, 1_000_000_000));
        },
        _ => panic!("root approval is reciprocal"),
    }
    match root.min_support {
        Curve::Linear { length, period, floor, ceil } => {
            assert_eq!((length, period), (7, 7));
            assert_eq!((floor.inner, ceil.inner), (0, 500_000_000));
        },
        _ => panic!("root support is linear"),
    }
}

#[test]
fn tipper_and_whitelisted_caller_parameters() {
    let tracks = TracksInfo::tracks();
    let tipper = &tracks[8].1;
    assert_eq!(tipper.decision_deposit, 500_000 * UNITS);
    assert_eq!(tipper.prepare_period, 60 * MINUTES);
    assert_eq!(tipper.confirm_period, 3 * HOURS);
    let whitelisted = &tracks[1].1;
    assert_eq!(whitelisted.prepare_period, 10 * MINUTES);
    match whitelisted.min_support {
        Curve::Reciprocal { delay, period, level, floor, ceil } => {
            assert_eq!((delay, period), (1, 28));
            assert_eq!((level.inner, floor.inner, ceil.inner), (200_000_000, 10_000_000, 500_000_000));
        },
        _ => panic!("whitelisted caller support is reciprocal"),
    }
}

#[test]
fn origins_map_to_their_tracks() {
    assert_eq!(TracksInfo::track_for(&PalletsOrigin::System(RawOrigin::Root)), Ok(0));
    assert_eq!(TracksInfo::track_for(&PalletsOrigin::System(RawOrigin::Signed(5))), Err(()));
    assert_eq!(TracksInfo::track_for(&PalletsOrigin::System(RawOrigin::Unsigned)), Err(()));
    assert_eq!(TracksInfo::track_for(&PalletsOrigin::Other), Err(()));
    let customs = [
        CustomOrigin::WhitelistedCaller,
        CustomOrigin::ReferendumCanceller,
        CustomOrigin::ReferendumKiller,
        CustomOrigin::GeneralAdmin,
        CustomOrigin::TechFellowshipAdmin,
        CustomOrigin::Treasurer,
        CustomOrigin::Spender,
        CustomOrigin::Tipper,
    ];
    let tracks = TracksInfo::tracks();
    for (i, c) in customs.iter().enumerate() {
        let id = TracksInfo::track_for(&PalletsOrigin::Origins(*c)).unwrap();
        assert_eq!(id as usize, i + 1);
        assert!(tracks.iter().any(|(t, _)| *t == id));
    }
}
