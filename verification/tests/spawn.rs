use rustoblast::constants::{POLY_WAVE_COUNT, ROLL_SCALE, UFO_UNLOCK_SCORE};
use rustoblast::random::random_roll;
use rustoblast::spawn::{roll_spawn, spawn_interval, SpawnKind};

fn to_roll(x: f32) -> u32 {
    (x * ROLL_SCALE as f32) as u32
}

fn sim_band(score: i32, seconds: f64) -> (u32, [u32; 6]) {
    let multiplier = if score > 100_000 {
        6
    } else if score > 50_000 {
        5
    } else if score > 20_000 {
        4
    } else if score > 5_000 {
        3
    } else if score > 1_000 {
        2
    } else {
        1
    };
    let (num, den) = spawn_interval(multiplier);
    let interval = num as f64 / den as f64;
    let ticks = (seconds / interval).floor() as u32;
    let mut counts = [0u32; 6];
    let mut waves = 0u32;
    // Deterministic LCG so the test is stable
    let mut seed: u32 = 1 + score as u32;
    let mut next = || {
        seed = seed.wrapping_mul(1664525).wrapping_add(1013904223);
        (seed as f32) / (u32::MAX as f32)
    };
    for _ in 0..ticks {
        let roll = to_roll(next());
        let wave_roll = to_roll(next());
        match roll_spawn(score, roll, wave_roll) {
            SpawnKind::BigRock => counts[0] += 1,
            SpawnKind::SmallSpinner => counts[1] += 1,
            SpawnKind::BigSpinner => counts[2] += 1,
            SpawnKind::GuidedMissile => counts[3] += 1,
            SpawnKind::Ufo => counts[4] += 1,
            SpawnKind::PolyWave => {
                waves += 1;
                counts[5] += POLY_WAVE_COUNT as u32;
            }
        }
    }
    (waves, counts)
}

#[test]
fn five_min_mix_is_rock_led_not_ufo_led() {
    for score in [0, 5_000, 20_000] {
        let (waves, c) = sim_band(score, 300.0);
        let total_threats: u32 = c.iter().sum();
        let rocks = c[0];
        let ufos = c[4];
        assert!(total_threats > 200, "score {score}: too few spawns");
        assert!(
            rocks as f32 / total_threats as f32 > 0.35,
            "score {score}: rocks should lead, got {rocks}/{total_threats}"
        );
        if score < UFO_UNLOCK_SCORE {
            assert_eq!(ufos, 0, "UFOs before unlock");
        } else {
            let ufo_share = ufos as f32 / total_threats as f32;
            assert!(
                ufo_share < 0.18,
                "score {score}: UFO share {ufo_share} too high"
            );
        }
        assert!(waves < 20, "score {score}: too many poly waves ({waves})");
    }
}

#[test]
fn low_wave_roll_starts_poly_wave() {
    assert_eq!(roll_spawn(0, 0, 0), SpawnKind::PolyWave);
    assert_eq!(roll_spawn(50_000, 9_999, 199), SpawnKind::PolyWave);
    assert_eq!(roll_spawn(0, 0, 200), SpawnKind::GuidedMissile);
}

#[test]
fn early_table_bands() {
    assert_eq!(roll_spawn(4_999, 0, 5_000), SpawnKind::GuidedMissile);
    assert_eq!(roll_spawn(4_999, 1_499, 5_000), SpawnKind::GuidedMissile);
    assert_eq!(roll_spawn(4_999, 1_500, 5_000), SpawnKind::SmallSpinner);
    assert_eq!(roll_spawn(4_999, 2_899, 5_000), SpawnKind::SmallSpinner);
    assert_eq!(roll_spawn(4_999, 2_900, 5_000), SpawnKind::BigSpinner);
    assert_eq!(roll_spawn(4_999, 4_099, 5_000), SpawnKind::BigSpinner);
    assert_eq!(roll_spawn(4_999, 4_100, 5_000), SpawnKind::BigRock);
    assert_eq!(roll_spawn(-3, 9_999, 5_000), SpawnKind::BigRock);
}

#[test]
fn late_table_bands_unlock_ufos_at_five_thousand() {
    assert_eq!(roll_spawn(5_000, 0, 5_000), SpawnKind::Ufo);
    assert_eq!(roll_spawn(5_000, 999, 5_000), SpawnKind::Ufo);
    assert_eq!(roll_spawn(5_000, 1_000, 5_000), SpawnKind::GuidedMissile);
    assert_eq!(roll_spawn(5_000, 2_199, 5_000), SpawnKind::GuidedMissile);
    assert_eq!(roll_spawn(5_000, 2_200, 5_000), SpawnKind::SmallSpinner);
    assert_eq!(roll_spawn(5_000, 3_800, 5_000), SpawnKind::BigSpinner);
    assert_eq!(roll_spawn(5_000, 5_199, 5_000), SpawnKind::BigSpinner);
    assert_eq!(roll_spawn(5_000, 5_200, 5_000), SpawnKind::BigRock);
    // One point short of the unlock the same roll is a guided missile.
    assert_eq!(roll_spawn(4_999, 999, 5_000), SpawnKind::GuidedMissile);
}

#[test]
fn no_ufo_before_unlock_for_any_roll() {
    for roll in 0..ROLL_SCALE {
        assert_ne!(roll_spawn(4_999, roll, 9_000), SpawnKind::Ufo);
    }
}

#[test]
fn roll_shares_are_rock_led() {
    for (score, expected) in [(0, [5_900, 1_400, 1_200, 1_500, 0]), (5_000, [4_800, 1_600, 1_400, 1_200, 1_000])] {
        let mut counts = [0u32; 5];
        for roll in 0..ROLL_SCALE {
            match roll_spawn(score, roll, ROLL_SCALE - 1) {
                SpawnKind::BigRock => counts[0] += 1,
                SpawnKind::SmallSpinner => counts[1] += 1,
                SpawnKind::BigSpinner => counts[2] += 1,
                SpawnKind::GuidedMissile => counts[3] += 1,
                SpawnKind::Ufo => counts[4] += 1,
                SpawnKind::PolyWave => panic!("no poly wave on a high wave roll"),
            }
        }
        assert_eq!(counts, expected);
    }
}

#[test]
fn spawn_interval_speeds_up_five_percent_per_step() {
    assert_eq!(spawn_interval(1), (20, 20));
    assert_eq!(spawn_interval(2), (20, 21));
    assert_eq!(spawn_interval(6), (20, 25));
    let one = 20.0 / 20.0;
    let six = 20.0 / 25.0;
    assert!((one - 1.0f64).abs() < 1e-12);
    assert!((six - 1.0 / 1.25f64).abs() < 1e-12);
}

#[test]
fn random_roll_stays_in_range_and_varies() {
    let mut seen = std::collections::HashSet::new();
    for _ in 0..2_000 {
        let r = random_roll();
        assert!(r < ROLL_SCALE);
        seen.insert(r);
    }
    assert!(seen.len() > 100);
}
