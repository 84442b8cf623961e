use vstd::prelude::*;

verus! {

/// Requested window size in pixels.
pub const WINDOW_WIDTH: i32 = 2560;
pub const WINDOW_HEIGHT: i32 = 1440;

/// Score from which UFOs can appear.
pub const UFO_UNLOCK_SCORE: i32 = 5_000;

/// Number of poly snakes released by one poly wave.
pub const POLY_WAVE_COUNT: i32 = 13;

/// A spawn roll is a uniform sample of `0..ROLL_SCALE`, i.e. a probability
/// expressed in hundredths of a percent.
pub const ROLL_SCALE: u32 = 10_000;

/// Chance (out of `ROLL_SCALE`) that a spawn tick starts a poly wave.
pub const POLY_WAVE_CHANCE: u32 = 200;

/// Cumulative spawn thresholds (out of `ROLL_SCALE`) before the UFO unlock;
/// the remainder is a big rock.
pub const EARLY_GUIDED: u32 = 1_500;
pub const EARLY_SMALL_SPINNER: u32 = 2_900;
pub const EARLY_BIG_SPINNER: u32 = 4_100;

/// Cumulative spawn thresholds (out of `ROLL_SCALE`) after the UFO unlock;
/// the remainder is a big rock.
pub const LATE_UFO: u32 = 1_000;
pub const LATE_GUIDED: u32 = 2_200;
pub const LATE_SMALL_SPINNER: u32 = 3_800;
pub const LATE_BIG_SPINNER: u32 = 5_200;

/// Chance (out of `ROLL_SCALE`) that a destroyed enemy drops a power-up.
pub const POWERUP_DROP_CHANCE: u32 = 1_250;

/// One second in microseconds, the time unit of every timer of the rules.
pub const SECOND_US: i64 = 1_000_000;

/// Delay between two UFO bombs.
pub const UFO_BOMB_COOLDOWN_US: i64 = 1_250_000;

/// Delay between two poly snakes of one wave, counted back from the spawn
/// interval.
pub const POLY_WAVE_STAGGER_US: i64 = 200_000;

/// Lives at the start of a game.
pub const START_LIVES: i32 = 10;

/// Shield charges a player can carry.
pub const MAX_SHIELDS: i32 = 6;

/// Sidekicks a player can fly with.
pub const MAX_SIDEKICKS: usize = 6;

/// How long an activated shield lasts.
pub const SHIELD_DURATION_US: i64 = 5_000_000;

/// Invincibility granted at the start and after each respawn.
pub const RESPAWN_INVINCIBILITY_US: i64 = 3_000_000;

/// Protection against spinners granted at the start of a game.
pub const SPINNER_INVINCIBILITY_US: i64 = 10_000_000;

/// Length of the muzzle flash.
pub const FLASH_US: i64 = 50_000;

/// Seconds between two shots of the player or of a sidekick.
pub const FIRE_RATE_US: i64 = 100_000;

/// How long the wreck is shown before the player respawns.
pub const DEATH_DELAY_US: i64 = 2_000_000;

/// How long "GAME LOADED" / "GAME SAVED" notices stay on screen.
pub const NOTICE_US: i64 = 2_000_000;

/// Player ship size in pixels.
pub const PLAYER_WIDTH: i32 = 120;
pub const PLAYER_HEIGHT: i32 = 120;

/// Sidekick formation: gap from the ship's edge, spacing between pairs and
/// vertical drop, in pixels.
pub const SIDEKICK_GAP: i32 = 40;
pub const SIDEKICK_SPACING: i32 = 60;
pub const SIDEKICK_DROP: i32 = 20;

/// Collision radius of a sidekick in pixels.
pub const SIDEKICK_RADIUS: i32 = 20;

/// Volume steps: a volume is a whole percentage in `0..=VOLUME_MAX`.
pub const VOLUME_MAX: u32 = 100;

/// Hold time after which a held arrow key keeps adjusting a slider.
pub const KEY_REPEAT_DELAY_US: i64 = 250_000;

/// The game's timings and sizes: three seconds of invincibility after each
/// (re)spawn and ten of protection against spinners at the start, a
/// five-second shield, ten shots per second for the ship and its
/// sidekicks, a 50 ms muzzle flash, a two-second wreck and two-second
/// notices, a UFO bomb every 1.25 s, poly snakes 0.2 s apart, ten lives,
/// six shield charges and six sidekicks, a 120-pixel ship, and volumes in
/// whole percent.
pub proof fn lemma_rule_timings()
    ensures
        RESPAWN_INVINCIBILITY_US == 3 * SECOND_US,
        SPINNER_INVINCIBILITY_US == 10 * SECOND_US,
        SHIELD_DURATION_US == 5 * SECOND_US,
        10 * FIRE_RATE_US == SECOND_US,
        20 * FLASH_US == SECOND_US,
        DEATH_DELAY_US == 2 * SECOND_US,
        NOTICE_US == 2 * SECOND_US,
        4 * UFO_BOMB_COOLDOWN_US == 5 * SECOND_US,
        5 * POLY_WAVE_STAGGER_US == SECOND_US,
        4 * KEY_REPEAT_DELAY_US == SECOND_US,
        SECOND_US == 1_000_000,
        START_LIVES == 10,
        MAX_SHIELDS == 6,
        MAX_SIDEKICKS == 6,
        PLAYER_WIDTH == 120 && PLAYER_HEIGHT == 120,
        SIDEKICK_GAP == 40 && SIDEKICK_SPACING == 60 && SIDEKICK_DROP == 20,
        SIDEKICK_RADIUS == 20,
        VOLUME_MAX == 100,
        POLY_WAVE_COUNT == 13,
        UFO_UNLOCK_SCORE == 5_000,
        WINDOW_WIDTH == 2560 && WINDOW_HEIGHT == 1440,
{
}

} // verus!
