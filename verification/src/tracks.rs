//! Referenda tracks of the Basilisk governance: their parameters, and which origin is decided
//! on which track.
use vstd::prelude::*;

use crate::arithmetic::{percent, FixedI64};
use crate::constants::{Balance, BlockNumber, DAYS, HOURS, MINUTES, UNITS};

verus! {

/// Identifier of a track.
pub type TrackId = u16;

/// The shape of a threshold curve over a decision period, as its parameters are given:
/// `Linear` falls from `ceil` to `floor` over `length / period` of the period;
/// `Reciprocal` reaches `level` after `delay / period` of the period, between `floor` and `ceil`.
#[derive(Clone, Copy, Debug)]
pub enum Curve {
    Linear { length: u128, period: u128, floor: FixedI64, ceil: FixedI64 },
    Reciprocal { delay: u128, period: u128, level: FixedI64, floor: FixedI64, ceil: FixedI64 },
}

/// A linear curve given as `make_linear(length, period, floor%, ceil%)`.
pub open spec fn linear(length: u128, period: u128, floor: int, ceil: int) -> Curve {
    Curve::Linear {
        length,
        period,
        floor: FixedI64 { inner: (floor * 10_000_000) as i64 },
        ceil: FixedI64 { inner: (ceil * 10_000_000) as i64 },
    }
}

/// A reciprocal curve given as `make_reciprocal(delay, period, level%, floor%, ceil%)`.
pub open spec fn reciprocal(delay: u128, period: u128, level: int, floor: int, ceil: int) -> Curve {
    Curve::Reciprocal {
        delay,
        period,
        level: FixedI64 { inner: (level * 10_000_000) as i64 },
        floor: FixedI64 { inner: (floor * 10_000_000) as i64 },
        ceil: FixedI64 { inner: (ceil * 10_000_000) as i64 },
    }
}

pub open spec fn app_linear() -> Curve {
    linear(7, 7, 50, 100)
}

pub open spec fn app_linear_flat() -> Curve {
    linear(4, 7, 50, 100)
}

pub open spec fn app_recip() -> Curve {
    reciprocal(1, 7, 80, 50, 100)
}

pub open spec fn sup_linear() -> Curve {
    linear(7, 7, 0, 50)
}

pub open spec fn sup_recip() -> Curve {
    reciprocal(5, 7, 1, 0, 50)
}

pub open spec fn sup_fast_recip() -> Curve {
    reciprocal(3, 7, 1, 0, 50)
}

pub open spec fn sup_whitelisted_caller() -> Curve {
    reciprocal(1, 28, 20, 1, 50)
}

fn make_linear(length: u128, period: u128, floor: i32, ceil: i32) -> (c: Curve)
    requires
        0 <= floor <= 100,
        0 <= ceil <= 100,
    ensures
        c == linear(length, period, floor as int, ceil as int),
{
    Curve::Linear { length, period, floor: percent(floor), ceil: percent(ceil) }
}

fn make_reciprocal(delay: u128, period: u128, level: i32, floor: i32, ceil: i32) -> (c: Curve)
    requires
        0 <= level <= 100,
        0 <= floor <= 100,
        0 <= ceil <= 100,
    ensures
        c == reciprocal(delay, period, level as int, floor as int, ceil as int),
{
    Curve::Reciprocal {
        delay,
        period,
        level: percent(level),
        floor: percent(floor),
        ceil: percent(ceil),
    }
}

/// Parameters of one referenda track.
#[derive(Clone, Copy, Debug)]
pub struct TrackInfo {
    pub name: &'static str,
    pub max_deciding: u32,
    pub decision_deposit: Balance,
    pub prepare_period: BlockNumber,
    pub decision_period: BlockNumber,
    pub confirm_period: BlockNumber,
    pub min_enactment_period: BlockNumber,
    pub min_approval: Curve,
    pub min_support: Curve,
}

/// Origins of the system pallet.
#[derive(Clone, Copy, Debug, PartialEq, Eq)]
pub enum RawOrigin {
    Root,
    Signed(u64),
    Unsigned,
}

/// Custom governance origins.
#[derive(Clone, Copy, Debug, PartialEq, Eq)]
pub enum CustomOrigin {
    WhitelistedCaller,
    ReferendumCanceller,
    ReferendumKiller,
    GeneralAdmin,
    TechFellowshipAdmin,
    Treasurer,
    Spender,
    Tipper,
}

/// The origin of a call, as the referenda pallet receives it.
#[derive(Clone, Copy, Debug, PartialEq, Eq)]
pub enum PalletsOrigin {
    System(RawOrigin),
    Origins(CustomOrigin),
    /// The origin of any other pallet.
    Other,
}

/// The track on which a referendum of the given origin is decided, if any.
pub open spec fn spec_track_for(origin: PalletsOrigin) -> Result<TrackId, ()> {
    match origin {
        PalletsOrigin::System(RawOrigin::Root) => Ok(0),
        PalletsOrigin::System(_) => Err(()),
        PalletsOrigin::Origins(custom) => Ok(
            match custom {
                CustomOrigin::WhitelistedCaller => 1,
                CustomOrigin::ReferendumCanceller => 2,
                CustomOrigin::ReferendumKiller => 3,
                CustomOrigin::GeneralAdmin => 4,
                CustomOrigin::TechFellowshipAdmin => 5,
                CustomOrigin::Treasurer => 6,
                CustomOrigin::Spender => 7,
                CustomOrigin::Tipper => 8,
            },
        ),
        PalletsOrigin::Other => Err(()),
    }
}

/// One track's parameters, with the deposit given in whole units.
pub open spec fn track(
    name: &'static str,
    max_deciding: u32,
    deposit_units: int,
    prepare_period: int,
    confirm_period: int,
    min_enactment_period: int,
    min_approval: Curve,
    min_support: Curve,
) -> TrackInfo {
    TrackInfo {
        name,
        max_deciding,
        decision_deposit: (deposit_units * UNITS) as u128,
        prepare_period: prepare_period as u32,
        decision_period: (7 * DAYS) as u32,
        confirm_period: confirm_period as u32,
        min_enactment_period: min_enactment_period as u32,
        min_approval,
        min_support,
    }
}

/// The tracks of Basilisk governance, by id.
pub open spec fn spec_tracks() -> Seq<(TrackId, TrackInfo)> {
    seq![
        (0u16, track("root", 1, 100_000_000, 24 * HOURS, 24 * HOURS, 24 * HOURS, app_recip(), sup_linear())),
        (1u16, track("whitelisted_caller", 10, 1_000_000, 10 * MINUTES, 10 * MINUTES, 10 * MINUTES, app_recip(), sup_whitelisted_caller())),
        (2u16, track("referendum_canceller", 10, 10_000_000, 60 * MINUTES, 24 * HOURS, 10 * MINUTES, app_linear_flat(), sup_fast_recip())),
        (3u16, track("referendum_killer", 10, 50_000_000, 60 * MINUTES, 3 * HOURS, 10 * MINUTES, app_linear_flat(), sup_fast_recip())),
        (4u16, track("general_admin", 10, 10_000_000, 60 * MINUTES, 3 * HOURS, 10 * MINUTES, app_recip(), sup_recip())),
        (5u16, track("tech_fellowship_admin", 10, 50_000_000, 60 * MINUTES, 24 * HOURS, 24 * HOURS, app_linear_flat(), sup_recip())),
        (6u16, track("treasurer", 10, 50_000_000, 60 * MINUTES, 12 * HOURS, 10 * MINUTES, app_recip(), sup_linear())),
        (7u16, track("spender", 10, 5_000_000, 60 * MINUTES, 3 * HOURS, 10 * MINUTES, app_linear(), sup_recip())),
        (8u16, track("tipper", 10, 500_000, 60 * MINUTES, 3 * HOURS, 10 * MINUTES, app_linear_flat(), sup_fast_recip())),
    ]
}

/// The referenda tracks of the runtime.
pub struct TracksInfo;

impl TracksInfo {
    /// All tracks with their ids, in the order of their ids.
    pub fn tracks() -> (tracks: Vec<(TrackId, TrackInfo)>)
        ensures
            tracks@ == spec_tracks(),
    {
        let app_recip = make_reciprocal(1, 7, 80, 50, 100);
        let app_linear = make_linear(7, 7, 50, 100);
        let app_linear_flat = make_linear(4, 7, 50, 100);
        let sup_linear = make_linear(7, 7, 0, 50);
        let sup_recip = make_reciprocal(5, 7, 1, 0, 50);
        let sup_fast_recip = make_reciprocal(3, 7, 1, 0, 50);
        let sup_whitelisted_caller = make_reciprocal(1, 28, 20, 1, 50);
        let mut tracks: Vec<(TrackId, TrackInfo)> = Vec::new();
        tracks.push((0, TrackInfo {
            name: "root",
            max_deciding: 1,
            decision_deposit: 100_000_000 * UNITS,
            prepare_period: 24 * HOURS,
            decision_period: 7 * DAYS,
            confirm_period: 24 * HOURS,
            min_enactment_period: 24 * HOURS,
            min_approval: app_recip,
            min_support: sup_linear,
        }));
        tracks.push((1, TrackInfo {
            name: "whitelisted_caller",
            max_deciding: 10,
            decision_deposit: 1_000_000 * UNITS,
            prepare_period: 10 * MINUTES,
            decision_period: 7 * DAYS,
            confirm_period: 10 * MINUTES,
            min_enactment_period: 10 * MINUTES,
            min_approval: app_recip,
            min_support: sup_whitelisted_caller,
        }));
        tracks.push((2, TrackInfo {
            name: "referendum_canceller",
            max_deciding: 10,
            decision_deposit: 10_000_000 * UNITS,
            prepare_period: 60 * MINUTES,
            decision_period: 7 * DAYS,
            confirm_period: 24 * HOURS,
            min_enactment_period: 10 * MINUTES,
            min_approval: app_linear_flat,
            min_support: sup_fast_recip,
        }));
        tracks.push((3, TrackInfo {
            name: "referendum_killer",
            max_deciding: 10,
            decision_deposit: 50_000_000 * UNITS,
            prepare_period: 60 * MINUTES,
            decision_period: 7 * DAYS,
            confirm_period: 3 * HOURS,
            min_enactment_period: 10 * MINUTES,
            min_approval: app_linear_flat,
            min_support: sup_fast_recip,
        }));
        tracks.push((4, TrackInfo {
            name: "general_admin",
            max_deciding: 10,
            decision_deposit: 10_000_000 * UNITS,
            prepare_period: 60 * MINUTES,
            decision_period: 7 * DAYS,
            confirm_period: 3 * HOURS,
            min_enactment_period: 10 * MINUTES,
            min_approval: app_recip,
            min_support: sup_recip,
        }));
        tracks.push((5, TrackInfo {
            name: "tech_fellowship_admin",
            max_deciding: 10,
            decision_deposit: 50_000_000 * UNITS,
            prepare_period: 60 * MINUTES,
            decision_period: 7 * DAYS,
            confirm_period: 24 * HOURS,
            min_enactment_period: 24 * HOURS,
            min_approval: app_linear_flat,
            min_support: sup_recip,
        }));
        tracks.push((6, TrackInfo {
            name: "treasurer",
            max_deciding: 10,
            decision_deposit: 50_000_000 * UNITS,
            prepare_period: 60 * MINUTES,
            decision_period: 7 * DAYS,
            confirm_period: 12 * HOURS,
            min_enactment_period: 10 * MINUTES,
            min_approval: app_recip,
            min_support: sup_linear,
        }));
        tracks.push((7, TrackInfo {
            name: "spender",
            max_deciding: 10,
            decision_deposit: 5_000_000 * UNITS,
            prepare_period: 60 * MINUTES,
            decision_period: 7 * DAYS,
            confirm_period: 3 * HOURS,
            min_enactment_period: 10 * MINUTES,
            min_approval: app_linear,
            min_support: sup_recip,
        }));
        tracks.push((8, TrackInfo {
            name: "tipper",
            max_deciding: 10,
            decision_deposit: 500_000 * UNITS,
            prepare_period: 60 * MINUTES,
            decision_period: 7 * DAYS,
            confirm_period: 3 * HOURS,
            min_enactment_period: 10 * MINUTES,
            min_approval: app_linear_flat,
            min_support: sup_fast_recip,
        }));
        assert(tracks@ =~= spec_tracks());
        tracks
    }

    /// The track on which a referendum of `origin` is decided: root on track 0, each custom
    /// origin on its own track, and no track for any other origin.
    pub fn track_for(origin: &PalletsOrigin) -> (r: Result<TrackId, ()>)
        ensures
            r == spec_track_for(*origin),
    {
        match origin {
            PalletsOrigin::System(system_origin) => match system_origin {
                RawOrigin::Root => Ok(0),
                _ => Err(()),
            },
            PalletsOrigin::Origins(custom_origin) => match custom_origin {
                CustomOrigin::WhitelistedCaller => Ok(1),
                CustomOrigin::ReferendumCanceller => Ok(2),
                CustomOrigin::ReferendumKiller => Ok(3),
                CustomOrigin::GeneralAdmin => Ok(4),
                CustomOrigin::TechFellowshipAdmin => Ok(5),
                CustomOrigin::Treasurer => Ok(6),
                CustomOrigin::Spender => Ok(7),
                CustomOrigin::Tipper => Ok(8),
            },
            PalletsOrigin::Other => Err(()),
        }
    }
}

/// Every origin that has a track is decided on one of the listed tracks, and the listed tracks
/// have distinct ids.
pub proof fn lemma_track_for_names_a_listed_track(origin: PalletsOrigin)
    ensures
        spec_track_for(origin) matches Ok(id) ==> exists|i: int|
            0 <= i < spec_tracks().len() && #[trigger] spec_tracks()[i].0 == id,
        forall|i: int, j: int|
            0 <= i < j < spec_tracks().len() ==> #[trigger] spec_tracks()[i].0 != #[trigger] spec_tracks()[j].0,
{
    let tracks = spec_tracks();
    assert forall|i: int| 0 <= i < tracks.len() implies #[trigger] tracks[i].0 == i by {
        assert(tracks[0].0 == 0 && tracks[1].0 == 1 && tracks[2].0 == 2 && tracks[3].0 == 3);
        assert(tracks[4].0 == 4 && tracks[5].0 == 5 && tracks[6].0 == 6 && tracks[7].0 == 7);
        assert(tracks[8].0 == 8);
    }
    if let Ok(id) = spec_track_for(origin) {
        assert(tracks[id as int].0 == id);
    }
}

/// A linear curve falling over `length / period` of the decision period from `ceil` to `floor`,
/// both in thousandths.
pub open spec fn linear_curve_is(c: Curve, length: u128, period: u128, floor: int, ceil: int) -> bool {
    c matches Curve::Linear { length: l, period: p, floor: f, ceil: x } && l == length && p == period
        && f.inner == floor * 1_000_000 && x.inner == ceil * 1_000_000
}

/// A reciprocal curve reaching `level` after `delay / period` of the decision period, between
/// `floor` and `ceil`, all three in thousandths.
pub open spec fn reciprocal_curve_is(c: Curve, delay: u128, period: u128, level: int, floor: int, ceil: int) -> bool {
    c matches Curve::Reciprocal { delay: d, period: p, level: v, floor: f, ceil: x } && d == delay && p == period
        && v.inner == level * 1_000_000 && f.inner == floor * 1_000_000 && x.inner == ceil * 1_000_000
}

/// The runtime's tracks, in blocks of twelve seconds and in the smallest units of the native
/// asset (10^12 per unit): nine tracks with ids 0 to 8, each deciding over 50_400 blocks
/// (seven days), with these deposits, periods and curves.
pub proof fn lemma_tracks_carry_the_runtime_parameters()
    ensures
        spec_tracks().len() == 9,
        ({
            let t = spec_tracks()[0].1;
            &&& spec_tracks()[0].0 == 0
            &&& t.name == "root"
            &&& t.max_deciding == 1
            &&& t.decision_deposit == 100_000_000_000_000_000_000
            &&& t.prepare_period == 7200
            &&& t.decision_period == 50_400
            &&& t.confirm_period == 7200
            &&& t.min_enactment_period == 7200
            &&& reciprocal_curve_is(t.min_approval, 1, 7, 800, 500, 1000)
            &&& linear_curve_is(t.min_support, 7, 7, 0, 500)
        }),
        ({
            let t = spec_tracks()[1].1;
            &&& spec_tracks()[1].0 == 1
            &&& t.name == "whitelisted_caller"
            &&& t.max_deciding == 10
            &&& t.decision_deposit == 1_000_000_000_000_000_000
            &&& t.prepare_period == 50
            &&& t.decision_period == 50_400
            &&& t.confirm_period == 50
            &&& t.min_enactment_period == 50
            &&& reciprocal_curve_is(t.min_approval, 1, 7, 800, 500, 1000)
            &&& reciprocal_curve_is(t.min_support, 1, 28, 200, 10, 500)
        }),
        ({
            let t = spec_tracks()[2].1;
            &&& spec_tracks()[2].0 == 2
            &&& t.name == "referendum_canceller"
            &&& t.max_deciding == 10
            &&& t.decision_deposit == 10_000_000_000_000_000_000
            &&& t.prepare_period == 300
            &&& t.decision_period == 50_400
            &&& t.confirm_period == 7200
            &&& t.min_enactment_period == 50
            &&& linear_curve_is(t.min_approval, 4, 7, 500, 1000)
            &&& reciprocal_curve_is(t.min_support, 3, 7, 10, 0, 500)
        }),
        ({
            let t = spec_tracks()[3].1;
            &&& spec_tracks()[3].0 == 3
            &&& t.name == "referendum_killer"
            &&& t.max_deciding == 10
            &&& t.decision_deposit == 50_000_000_000_000_000_000
            &&& t.prepare_period == 300
            &&& t.decision_period == 50_400
            &&& t.confirm_period == 900
            &&& t.min_enactment_period == 50
            &&& linear_curve_is(t.min_approval, 4, 7, 500, 1000)
            &&& reciprocal_curve_is(t.min_support, 3, 7, 10, 0, 500)
        }),
        ({
            let t = spec_tracks()[4].1;
            &&& spec_tracks()[4].0 == 4
            &&& t.name == "general_admin"
            &&& t.max_deciding == 10
            &&& t.decision_deposit == 10_000_000_000_000_000_000
            &&& t.prepare_period == 300
            &&& t.decision_period == 50_400
            &&& t.confirm_period == 900
            &&& t.min_enactment_period == 50
            &&& reciprocal_curve_is(t.min_approval, 1, 7, 800, 500, 1000)
            &&& reciprocal_curve_is(t.min_support, 5, 7, 10, 0, 500)
        }),
        ({
            let t = spec_tracks()[5].1;
            &&& spec_tracks()[5].0 == 5
            &&& t.name == "tech_fellowship_admin"
            &&& t.max_deciding == 10
            &&& t.decision_deposit == 50_000_000_000_000_000_000
            &&& t.prepare_period == 300
            &&& t.decision_period == 50_400
            &&& t.confirm_period == 7200
            &&& t.min_enactment_period == 7200
            &&& linear_curve_is(t.min_approval, 4, 7, 500, 1000)
            &&& reciprocal_curve_is(t.min_support, 5, 7, 10, 0, 500)
        }),
        ({
            let t = spec_tracks()[6].1;
            &&& spec_tracks()[6].0 == 6
            &&& t.name == "treasurer"
            &&& t.max_deciding == 10
            &&& t.decision_deposit == 50_000_000_000_000_000_000
            &&& t.prepare_period == 300
            &&& t.decision_period == 50_400
            &&& t.confirm_period == 3600
            &&& t.min_enactment_period == 50
            &&& reciprocal_curve_is(t.min_approval, 1, 7, 800, 500, 1000)
            &&& linear_curve_is(t.min_support, 7, 7, 0, 500)
        }),
        ({
            let t = spec_tracks()[7].1;
            &&& spec_tracks()[7].0 == 7
            &&& t.name == "spender"
            &&& t.max_deciding == 10
            &&& t.decision_deposit == 5_000_000_000_000_000_000
            &&& t.prepare_period == 300
            &&& t.decision_period == 50_400
            &&& t.confirm_period == 900
            &&& t.min_enactment_period == 50
            &&& linear_curve_is(t.min_approval, 7, 7, 500, 1000)
            &&& reciprocal_curve_is(t.min_support, 5, 7, 10, 0, 500)
        }),
        ({
            let t = spec_tracks()[8].1;
            &&& spec_tracks()[8].0 == 8
            &&& t.name == "tipper"
            &&& t.max_deciding == 10
            &&& t.decision_deposit == 500_000_000_000_000_000
            &&& t.prepare_period == 300
            &&& t.decision_period == 50_400
            &&& t.confirm_period == 900
            &&& t.min_enactment_period == 50
            &&& linear_curve_is(t.min_approval, 4, 7, 500, 1000)
            &&& reciprocal_curve_is(t.min_support, 3, 7, 10, 0, 500)
        }),
{
}

} // verus!
