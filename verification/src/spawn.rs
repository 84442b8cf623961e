use crate::constants::{
    EARLY_BIG_SPINNER, EARLY_GUIDED, EARLY_SMALL_SPINNER, LATE_BIG_SPINNER, LATE_GUIDED,
    LATE_SMALL_SPINNER, LATE_UFO, POLY_WAVE_CHANCE, ROLL_SCALE, UFO_UNLOCK_SCORE,
};
use vstd::prelude::*;
use vstd::set_lib::{lemma_int_range, set_int_range};

verus! {

/// What a spawn tick produces.
#[derive(Clone, Copy, Debug, PartialEq, Eq, Structural)]
pub enum SpawnKind {
    BigRock,
    SmallSpinner,
    BigSpinner,
    GuidedMissile,
    Ufo,
    PolyWave,
}

/// The spawn table: a poly wave on a low `wave_roll`, otherwise the band of
/// the cumulative thresholds that `roll` falls in, with UFOs only once the
/// score reaches the unlock.
pub open spec fn spawn_kind_for(score: int, roll: int, wave_roll: int) -> SpawnKind {
    if wave_roll < POLY_WAVE_CHANCE {
        SpawnKind::PolyWave
    } else if score >= UFO_UNLOCK_SCORE {
        if roll < LATE_UFO {
            SpawnKind::Ufo
        } else if roll < LATE_GUIDED {
            SpawnKind::GuidedMissile
        } else if roll < LATE_SMALL_SPINNER {
            SpawnKind::SmallSpinner
        } else if roll < LATE_BIG_SPINNER {
            SpawnKind::BigSpinner
        } else {
            SpawnKind::BigRock
        }
    } else if roll < EARLY_GUIDED {
        SpawnKind::GuidedMissile
    } else if roll < EARLY_SMALL_SPINNER {
        SpawnKind::SmallSpinner
    } else if roll < EARLY_BIG_SPINNER {
        SpawnKind::BigSpinner
    } else {
        SpawnKind::BigRock
    }
}

/// Picks what a spawn tick produces. `roll` and `wave_roll` are independent
/// samples of `0..ROLL_SCALE`.
pub fn roll_spawn(score: i32, roll: u32, wave_roll: u32) -> (kind: SpawnKind)
    ensures
        kind == spawn_kind_for(score as int, roll as int, wave_roll as int),
{
    if wave_roll < POLY_WAVE_CHANCE {
        return SpawnKind::PolyWave;
    }
    if score >= UFO_UNLOCK_SCORE {
        if roll < LATE_UFO {
            SpawnKind::Ufo
        } else if roll < LATE_GUIDED {
            SpawnKind::GuidedMissile
        } else if roll < LATE_SMALL_SPINNER {
            SpawnKind::SmallSpinner
        } else if roll < LATE_BIG_SPINNER {
            SpawnKind::BigSpinner
        } else {
            SpawnKind::BigRock
        }
    } else if roll < EARLY_GUIDED {
        SpawnKind::GuidedMissile
    } else if roll < EARLY_SMALL_SPINNER {
        SpawnKind::SmallSpinner
    } else if roll < EARLY_BIG_SPINNER {
        SpawnKind::BigSpinner
    } else {
        SpawnKind::BigRock
    }
}

/// Seconds between two spawn ticks at a score multiplier, as the exact
/// fraction `interval.0 / interval.1`: one second sped up by 5% per
/// multiplier step above 1, i.e. `1 / (1 + (multiplier - 1) / 20)`.
pub fn spawn_interval(multiplier: i32) -> (interval: (i64, i64))
    ensures
        interval.0 == 20,
        interval.1 == 19 + multiplier,
{
    (20, 19 + multiplier as i64)
}

/// The rolls of `0..ROLL_SCALE` that give `kind` on a tick that starts no
/// poly wave.
pub open spec fn roll_band(score: int, kind: SpawnKind) -> Set<int> {
    Set::new(
        |r: int| 0 <= r < ROLL_SCALE && spawn_kind_for(score, r, POLY_WAVE_CHANCE as int) == kind,
    )
}

/// The share of `kind`, in hundredths of a percent, among the ticks that
/// start no poly wave.
pub open spec fn roll_share(score: int, kind: SpawnKind) -> int {
    roll_band(score, kind).len() as int
}

/// Lower and upper end of the band of rolls that give `kind`.
pub open spec fn band_ends(score: int, kind: SpawnKind) -> (int, int) {
    if score >= UFO_UNLOCK_SCORE {
        match kind {
            SpawnKind::Ufo => (0, LATE_UFO as int),
            SpawnKind::GuidedMissile => (LATE_UFO as int, LATE_GUIDED as int),
            SpawnKind::SmallSpinner => (LATE_GUIDED as int, LATE_SMALL_SPINNER as int),
            SpawnKind::BigSpinner => (LATE_SMALL_SPINNER as int, LATE_BIG_SPINNER as int),
            SpawnKind::BigRock => (LATE_BIG_SPINNER as int, ROLL_SCALE as int),
            SpawnKind::PolyWave => (0, 0),
        }
    } else {
        match kind {
            SpawnKind::Ufo => (0, 0),
            SpawnKind::GuidedMissile => (0, EARLY_GUIDED as int),
            SpawnKind::SmallSpinner => (EARLY_GUIDED as int, EARLY_SMALL_SPINNER as int),
            SpawnKind::BigSpinner => (EARLY_SMALL_SPINNER as int, EARLY_BIG_SPINNER as int),
            SpawnKind::BigRock => (EARLY_BIG_SPINNER as int, ROLL_SCALE as int),
            SpawnKind::PolyWave => (0, 0),
        }
    }
}

proof fn lemma_band_is_range(score: int, kind: SpawnKind)
    ensures
        band_ends(score, kind).0 <= band_ends(score, kind).1,
        roll_band(score, kind) == set_int_range(band_ends(score, kind).0, band_ends(score, kind).1),
        roll_band(score, kind).finite(),
        roll_share(score, kind) == band_ends(score, kind).1 - band_ends(score, kind).0,
{
    let (lo, hi) = band_ends(score, kind);
    assert(roll_band(score, kind) =~= set_int_range(lo, hi));
    lemma_int_range(lo, hi);
}

/// UFOs never appear before the score reaches the unlock.
pub proof fn lemma_no_ufo_before_unlock(score: int, roll: int, wave_roll: int)
    requires
        score < UFO_UNLOCK_SCORE,
    ensures
        spawn_kind_for(score, roll, wave_roll) != SpawnKind::Ufo,
{
}

/// A tick starts a poly wave exactly when its wave roll is below the poly
/// wave chance, whatever the score.
pub proof fn lemma_poly_wave_chance(score: int, roll: int, wave_roll: int)
    ensures
        (spawn_kind_for(score, roll, wave_roll) == SpawnKind::PolyWave) == (wave_roll
            < POLY_WAVE_CHANCE),
{
}

/// The spawn mix is rock-led: on ticks without a poly wave, big rocks have a
/// larger share of the rolls than any other kind; UFOs have no share before
/// the unlock and a tenth of the rolls after it; and the shares add up to
/// all rolls.
pub proof fn lemma_rock_led_mix(score: int, kind: SpawnKind)
    ensures
        kind != SpawnKind::BigRock ==> roll_share(score, kind) < roll_share(
            score,
            SpawnKind::BigRock,
        ),
        score < UFO_UNLOCK_SCORE ==> roll_share(score, SpawnKind::Ufo) == 0,
        score >= UFO_UNLOCK_SCORE ==> roll_share(score, SpawnKind::Ufo) == ROLL_SCALE / 10,
        roll_share(score, SpawnKind::PolyWave) == 0,
        roll_share(score, SpawnKind::BigRock) + roll_share(score, SpawnKind::SmallSpinner)
            + roll_share(score, SpawnKind::BigSpinner) + roll_share(
            score,
            SpawnKind::GuidedMissile,
        ) + roll_share(score, SpawnKind::Ufo) == ROLL_SCALE,
{
    lemma_band_is_range(score, kind);
    lemma_band_is_range(score, SpawnKind::BigRock);
    lemma_band_is_range(score, SpawnKind::SmallSpinner);
    lemma_band_is_range(score, SpawnKind::BigSpinner);
    lemma_band_is_range(score, SpawnKind::GuidedMissile);
    lemma_band_is_range(score, SpawnKind::Ufo);
    lemma_band_is_range(score, SpawnKind::PolyWave);
}

/// The spawn table, band by band. One tick in fifty (a wave roll below
/// 200 of 10,000) starts a poly wave. Otherwise, below 5,000 points, the
/// first 1,500 rolls give guided missiles, the next 1,400 small spinners,
/// the next 1,200 big spinners and the remaining 5,900 big rocks, and no
/// UFO comes; from 5,000 points the first 1,000 rolls give UFOs, then 1,200
/// guided missiles, 1,600 small spinners, 1,400 big spinners and 4,800 big
/// rocks.
pub proof fn lemma_spawn_table(score: int, roll: int, wave_roll: int)
    ensures
        (spawn_kind_for(score, roll, wave_roll) == SpawnKind::PolyWave) == (wave_roll < 200),
        score < 5_000 ==> roll_band(score, SpawnKind::GuidedMissile) == set_int_range(0, 1_500),
        score < 5_000 ==> roll_band(score, SpawnKind::SmallSpinner) == set_int_range(
            1_500,
            2_900,
        ),
        score < 5_000 ==> roll_band(score, SpawnKind::BigSpinner) == set_int_range(2_900, 4_100),
        score < 5_000 ==> roll_band(score, SpawnKind::BigRock) == set_int_range(4_100, 10_000),
        score < 5_000 ==> roll_band(score, SpawnKind::Ufo) == Set::<int>::empty(),
        score >= 5_000 ==> roll_band(score, SpawnKind::Ufo) == set_int_range(0, 1_000),
        score >= 5_000 ==> roll_band(score, SpawnKind::GuidedMissile) == set_int_range(
            1_000,
            2_200,
        ),
        score >= 5_000 ==> roll_band(score, SpawnKind::SmallSpinner) == set_int_range(
            2_200,
            3_800,
        ),
        score >= 5_000 ==> roll_band(score, SpawnKind::BigSpinner) == set_int_range(
            3_800,
            5_200,
        ),
        score >= 5_000 ==> roll_band(score, SpawnKind::BigRock) == set_int_range(5_200, 10_000),
{
    lemma_band_is_range(score, SpawnKind::GuidedMissile);
    lemma_band_is_range(score, SpawnKind::SmallSpinner);
    lemma_band_is_range(score, SpawnKind::BigSpinner);
    lemma_band_is_range(score, SpawnKind::BigRock);
    lemma_band_is_range(score, SpawnKind::Ufo);
    assert(set_int_range(0, 0) =~= Set::<int>::empty());
}

} // verus!
