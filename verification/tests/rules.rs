use rustoblast::constants::{
    DEATH_DELAY_US, FLASH_US, MAX_SHIELDS, RESPAWN_INVINCIBILITY_US, SHIELD_DURATION_US,
    SPINNER_INVINCIBILITY_US, START_LIVES, UFO_BOMB_COOLDOWN_US,
};
use rustoblast::enemy::{landing_wipes_formation, ufo_bomb_tick, EnemyType};
use rustoblast::game::{
    star_direction, Backdrop, FrameInput, FrameStart, GameState, HitOutcome, LoopCue, LoopFlags,
};
use rustoblast::player::Player;
use rustoblast::powerup::{powerup_drop, roll_powerup_drop, PowerUpType};
use rustoblast::sidekick::Sidekick;

fn frame(dt_us: i64) -> FrameInput {
    FrameInput { pause_pressed: false, options_pressed: false, dt_us }
}

#[test]
fn new_game_starts_with_ten_lives_and_protection() {
    let g = GameState::new(0, 100, 50, 100);
    assert_eq!(g.lives, START_LIVES);
    assert_eq!(g.lives, 10);
    assert_eq!(g.score, 0);
    assert!(!g.player_dead);
    assert_eq!(g.player.shields, 0);
    assert_eq!(g.player.max_shields, MAX_SHIELDS);
    assert_eq!(g.player.invincible_timer, RESPAWN_INVINCIBILITY_US);
    assert_eq!(g.player.spinner_invincible_timer, SPINNER_INVINCIBILITY_US);
    assert_eq!(g.sfx_volume, 50);
    assert!(g.player.sidekicks.is_empty());
}

#[test]
fn multiplier_bands_and_backdrops() {
    let cases = [
        (-7, 1, Backdrop::Black),
        (1_000, 1, Backdrop::Black),
        (1_001, 2, Backdrop::DarkBlue),
        (5_000, 2, Backdrop::DarkBlue),
        (5_001, 3, Backdrop::DarkPurple),
        (20_001, 4, Backdrop::DarkTurquoise),
        (50_001, 5, Backdrop::Gray),
        (100_000, 5, Backdrop::Gray),
        (100_001, 6, Backdrop::Black),
    ];
    for (score, m, bg) in cases {
        let g = GameState::new(score, 100, 100, 100);
        assert_eq!(g.get_multiplier_and_bg(), (m, bg), "score {score}");
    }
}

#[test]
fn kills_score_per_kind_times_multiplier() {
    let mut g = GameState::new(0, 100, 100, 100);
    g.award_kills(&vec![EnemyType::BigRock], 1);
    assert_eq!(g.score, 10);
    g.award_kills(&vec![EnemyType::SmallRock, EnemyType::BigSpinner], 2);
    assert_eq!(g.score, 10 + 40 + 80);
    g.award_kills(&vec![EnemyType::SmallSpinner, EnemyType::GuidedMissile, EnemyType::UFO], 3);
    assert_eq!(g.score, 130 + 3 * (80 + 50 + 100));
    g.award_kills(&vec![EnemyType::UFOBomb, EnemyType::PolySnake], 6);
    assert_eq!(g.score, 820 + 6 * (10 + 150));
}

#[test]
fn score_never_drops_below_zero() {
    let mut g = GameState::new(-50, 100, 100, 100);
    g.award_kills(&vec![], 1);
    assert_eq!(g.score, 0);
    let mut g = GameState::new(3, 100, 100, 100);
    let out = g.resolve_landings(&vec![EnemyType::BigRock]);
    assert_eq!(out, HitOutcome::Unaffected);
    assert_eq!(g.score, 0);
}

#[test]
fn landed_rocks_cost_points_at_the_multiplier() {
    let mut g = GameState::new(2_000, 100, 100, 100);
    let out = g.resolve_landings(&vec![EnemyType::BigRock, EnemyType::SmallRock, EnemyType::UFOBomb]);
    assert_eq!(out, HitOutcome::Unaffected);
    assert_eq!(g.score, 2_000 - 2 * (5 + 10));
    assert_eq!(g.lives, 10);
}

#[test]
fn landed_spinner_costs_a_life_unless_shielded() {
    let mut g = GameState::new(0, 100, 100, 100);
    let out = g.resolve_landings(&vec![EnemyType::SmallSpinner]);
    assert_eq!(out, HitOutcome::Died);
    assert_eq!(g.lives, 9);
    assert!(g.player_dead);
    assert_eq!(g.dead_timer, DEATH_DELAY_US);

    let mut g = GameState::new(0, 100, 100, 100);
    g.player.collect_powerup(PowerUpType::Shield);
    g.player.activate_shield();
    let out = g.resolve_landings(&vec![EnemyType::PolySnake]);
    assert_eq!(out, HitOutcome::Absorbed);
    assert_eq!(g.lives, 10);

    let mut g = GameState::new(0, 100, 100, 100);
    g.lives = 0;
    let out = g.resolve_landings(&vec![EnemyType::BigSpinner]);
    assert_eq!(out, HitOutcome::GameOver);
}

#[test]
fn player_hit_respects_invincibility_and_shield() {
    let mut g = GameState::new(0, 100, 100, 100);
    assert_eq!(g.resolve_player_hit(), HitOutcome::Unaffected);
    assert_eq!(g.lives, 10);
    g.player.update(RESPAWN_INVINCIBILITY_US);
    assert!(g.player.invincible_timer <= 0);
    g.player.collect_powerup(PowerUpType::Shield);
    g.player.activate_shield();
    assert_eq!(g.resolve_player_hit(), HitOutcome::Absorbed);
    g.player.update(SHIELD_DURATION_US);
    assert!(!g.player.is_shielded);
    assert_eq!(g.resolve_player_hit(), HitOutcome::Died);
    assert_eq!(g.lives, 9);
    assert!(g.player_dead);
    g.lives = 0;
    g.player_dead = false;
    assert_eq!(g.resolve_player_hit(), HitOutcome::GameOver);
}

#[test]
fn spinners_are_harmless_while_protected() {
    let mut g = GameState::new(0, 100, 100, 100);
    assert!(!g.contact_harms_player(EnemyType::BigSpinner));
    assert!(!g.contact_harms_player(EnemyType::SmallSpinner));
    assert!(g.contact_harms_player(EnemyType::BigRock));
    g.player.update(SPINNER_INVINCIBILITY_US);
    assert!(g.contact_harms_player(EnemyType::BigSpinner));
}

#[test]
fn wreck_respawns_after_two_seconds_with_invincibility() {
    let mut g = GameState::new(0, 100, 100, 100);
    g.player.update(RESPAWN_INVINCIBILITY_US);
    assert_eq!(g.resolve_player_hit(), HitOutcome::Died);
    assert_eq!(g.begin_frame(&frame(1_000_000)), FrameStart::Dead);
    assert_eq!(g.begin_frame(&frame(999_999)), FrameStart::Dead);
    assert_eq!(g.begin_frame(&frame(1)), FrameStart::Respawned);
    assert!(!g.player_dead);
    assert_eq!(g.player.invincible_timer, RESPAWN_INVINCIBILITY_US);
    assert_eq!(g.begin_frame(&frame(16_000)), FrameStart::Alive);
}

#[test]
fn last_wreck_ends_the_game() {
    let mut g = GameState::new(0, 100, 100, 100);
    g.player.update(RESPAWN_INVINCIBILITY_US);
    g.lives = 1;
    assert_eq!(g.resolve_player_hit(), HitOutcome::Died);
    assert_eq!(g.lives, 0);
    assert!(!g.out_of_lives());
    assert_eq!(g.begin_frame(&frame(DEATH_DELAY_US)), FrameStart::GameOver);
    assert!(g.out_of_lives());
}

#[test]
fn pause_and_options_keys_leave_at_once() {
    let mut g = GameState::new(0, 100, 100, 100);
    let input = FrameInput { pause_pressed: true, options_pressed: true, dt_us: 1_000_000 };
    assert_eq!(g.begin_frame(&input), FrameStart::Pause);
    assert_eq!(g.player.invincible_timer, RESPAWN_INVINCIBILITY_US);
    let input = FrameInput { pause_pressed: false, options_pressed: true, dt_us: 1_000_000 };
    assert_eq!(g.begin_frame(&input), FrameStart::Options);
    assert_eq!(g.player.invincible_timer, RESPAWN_INVINCIBILITY_US);
}

#[test]
fn spawn_ticks_once_per_interval() {
    let mut g = GameState::new(0, 100, 100, 100);
    assert_eq!(g.spawn_step_with_rolls(1_000_000, 9_999, 9_999), None);
    assert_eq!(g.spawn_timer, 1_000_000);
    assert_eq!(g.spawn_step_with_rolls(1, 9_999, 9_999), Some(EnemyType::BigRock));
    assert_eq!(g.spawn_timer, 0);
    // At multiplier 2 the interval is 20/21 s.
    let mut g = GameState::new(2_000, 100, 100, 100);
    assert_eq!(g.spawn_step_with_rolls(952_380, 0, 9_999), None);
    assert_eq!(g.spawn_step_with_rolls(1, 0, 9_999), Some(EnemyType::GuidedMissile));
}

#[test]
fn poly_wave_sends_thirteen_snakes() {
    let mut g = GameState::new(0, 100, 100, 100);
    assert_eq!(g.spawn_step_with_rolls(1_000_001, 9_999, 0), None);
    assert_eq!(g.mod_poly_wave_remaining, 13);
    for left in (0..13).rev() {
        let mut snake = None;
        for _ in 0..20 {
            snake = g.spawn_step_with_rolls(100_000, 9_999, 9_999);
            if snake.is_some() {
                break;
            }
        }
        assert_eq!(snake, Some(EnemyType::PolySnake));
        assert_eq!(g.mod_poly_wave_remaining, left);
        assert_eq!(g.spawn_timer, 800_000);
    }
    assert_eq!(g.spawn_step_with_rolls(300_000, 9_999, 9_999), Some(EnemyType::BigRock));
}

#[test]
fn random_spawn_step_waits_for_the_interval() {
    let mut g = GameState::new(0, 100, 100, 100);
    assert_eq!(g.spawn_step(500_000), None);
    assert_eq!(g.spawn_timer, 500_000);
    let _ = g.spawn_step(600_000);
    assert_eq!(g.spawn_timer, 0);
}

#[test]
fn shields_cap_at_six_and_last_five_seconds() {
    let mut p = Player::new();
    p.activate_shield();
    assert!(!p.is_shielded);
    for _ in 0..10 {
        p.collect_powerup(PowerUpType::Shield);
    }
    assert_eq!(p.shields, 6);
    p.activate_shield();
    assert!(p.is_shielded);
    assert_eq!(p.shields, 5);
    assert_eq!(p.shield_active_timer, SHIELD_DURATION_US);
    p.activate_shield();
    assert_eq!(p.shields, 5);
    p.update(4_999_999);
    assert!(p.is_shielded);
    p.update(1);
    assert!(!p.is_shielded);
}

#[test]
fn sidekicks_fly_in_mirrored_pairs_up_to_six() {
    let mut p = Player::new();
    for _ in 0..8 {
        p.collect_powerup(PowerUpType::Sidekick);
    }
    let offsets: Vec<(i64, i64)> =
        p.sidekicks.iter().map(|s| (s.offset_x_half_px, s.offset_y_half_px)).collect();
    assert_eq!(
        offsets,
        vec![(-200, 40), (200, 40), (-320, 40), (320, 40), (-440, 40), (440, 40)]
    );
    assert!(p.sidekicks.iter().all(|s| s.active));
}

#[test]
fn trigger_respects_fire_rate_and_flashes() {
    let mut p = Player::new();
    assert!(!p.fire(false, 500_000));
    assert!(p.fire(true, 500_000));
    assert_eq!(p.flash_timer, FLASH_US);
    assert_eq!(p.last_shot_time, 500_000);
    assert!(!p.fire(true, 600_000));
    assert!(p.fire(true, 600_001));
    p.update(FLASH_US);
    assert_eq!(p.flash_timer, 0);
}

#[test]
fn sidekicks_auto_fire() {
    let mut p = Player::new();
    p.add_sidekick();
    p.add_sidekick();
    assert_eq!(p.fire_sidekicks(50_000), Vec::<usize>::new());
    assert_eq!(p.fire_sidekicks(100_001), vec![0, 1]);
    assert_eq!(p.sidekicks[0].last_shot_time, 100_001);
    p.add_sidekick();
    assert_eq!(p.fire_sidekicks(150_000), vec![2]);
}

#[test]
fn struck_sidekicks_are_removed_and_spinners_wipe_all() {
    let mut p = Player::new();
    for _ in 0..4 {
        p.add_sidekick();
    }
    assert!(!p.strike_sidekick(1, EnemyType::BigRock));
    let wrecks = p.settle_sidekicks(false);
    assert_eq!(wrecks.len(), 1);
    assert_eq!(wrecks[0].offset_x_half_px, 200);
    assert!(!wrecks[0].active);
    let left: Vec<i64> = p.sidekicks.iter().map(|s| s.offset_x_half_px).collect();
    assert_eq!(left, vec![-200, -320, 320]);

    assert!(p.strike_sidekick(0, EnemyType::SmallSpinner));
    let wrecks = p.settle_sidekicks(true);
    assert!(p.sidekicks.is_empty());
    let wrecked: Vec<i64> = wrecks.iter().map(|s| s.offset_x_half_px).collect();
    assert_eq!(wrecked, vec![-320, 320]);
}

#[test]
fn new_sidekick_is_ready() {
    let s = Sidekick::new(-200, 40);
    assert!(s.active);
    assert_eq!(s.last_shot_time, 0);
    assert_eq!(s.radius, 20);
}

#[test]
fn ufo_drops_a_bomb_every_cooldown() {
    assert_eq!(ufo_bomb_tick(UFO_BOMB_COOLDOWN_US, 1_000_000), (250_000, false));
    assert_eq!(ufo_bomb_tick(250_000, 250_000), (UFO_BOMB_COOLDOWN_US, true));
    assert_eq!(ufo_bomb_tick(0, 16_000), (UFO_BOMB_COOLDOWN_US, true));
}

#[test]
fn enemy_kind_rules() {
    assert!(EnemyType::BigRock.lands_on_playfield());
    assert!(EnemyType::PolySnake.lands_on_playfield());
    assert!(!EnemyType::GuidedMissile.lands_on_playfield());
    assert!(!EnemyType::UFO.lands_on_playfield());
    assert!(EnemyType::SmallSpinner.landing_is_deadly());
    assert!(EnemyType::PolySnake.landing_is_deadly());
    assert!(!EnemyType::BigRock.landing_is_deadly());
    assert!(EnemyType::BigRock.splits_on_kill());
    assert!(!EnemyType::SmallRock.splits_on_kill());
    assert_eq!(EnemyType::PolySnake.kill_points(), 150);
    assert_eq!(EnemyType::SmallRock.landing_penalty(), 10);
    assert_eq!(EnemyType::UFO.landing_penalty(), 0);
}

#[test]
fn powerup_drop_one_in_eight() {
    assert_eq!(powerup_drop(0, true), Some(PowerUpType::Shield));
    assert_eq!(powerup_drop(1_249, false), Some(PowerUpType::Sidekick));
    assert_eq!(powerup_drop(1_250, true), None);
    let mut drops = 0;
    for _ in 0..4_000 {
        if roll_powerup_drop().is_some() {
            drops += 1;
        }
    }
    assert!(drops > 0 && drops < 4_000);
}

#[test]
fn warning_loops_follow_the_enemies() {
    let mut g = GameState::new(0, 100, 100, 100);
    let all = LoopFlags { ufo: true, missile: true, big_spinner: true, small_spinner: false };
    let cues = g.update_loops(&vec![EnemyType::UFO, EnemyType::BigRock, EnemyType::SmallSpinner], all);
    assert_eq!(cues.ufo, LoopCue::Start);
    assert_eq!(cues.missile, LoopCue::Keep);
    assert_eq!(cues.small_spinner, LoopCue::Keep);
    assert!(g.ufo_sound_active);
    assert!(!g.small_spinner_sound_active);
    let cues = g.update_loops(&vec![EnemyType::UFO], all);
    assert_eq!(cues.ufo, LoopCue::Keep);
    let cues = g.update_loops(&vec![], all);
    assert_eq!(cues.ufo, LoopCue::Stop);
    assert!(!g.ufo_sound_active);
}

#[test]
fn multiplier_change_is_noticed() {
    let mut g = GameState::new(990, 100, 100, 100);
    let (before, _) = g.get_multiplier_and_bg();
    assert!(!g.multiplier_changed(before));
    g.award_kills(&vec![EnemyType::SmallRock], before);
    assert!(g.multiplier_changed(before));
}

#[test]
fn loaded_game_resumes_flying() {
    let mut g = GameState::new(1_234, 100, 100, 100);
    g.player.update(RESPAWN_INVINCIBILITY_US);
    g.resolve_player_hit();
    g.mod_poly_wave_remaining = 7;
    g.resume_loaded(40, 30, 20);
    assert!(!g.player_dead);
    assert_eq!(g.dead_timer, 0);
    assert_eq!(g.mod_poly_wave_remaining, 0);
    assert_eq!(g.load_notification_timer, 2_000_000);
    assert_eq!((g.master_volume, g.sfx_volume, g.music_volume), (40, 30, 20));
    assert_eq!(g.score, 1_234);
}

#[test]
fn star_drift_flips_every_ten_thousand_points() {
    assert_eq!(star_direction(0), 1);
    assert_eq!(star_direction(9_999), 1);
    assert_eq!(star_direction(10_000), -1);
    assert_eq!(star_direction(19_999), -1);
    assert_eq!(star_direction(20_000), 1);
    assert_eq!(star_direction(-15_000), -1);
    assert_eq!(star_direction(-5_000), 1);
}

#[test]
fn restored_game_keeps_saved_fields_and_starts_empty() {
    let mut g = GameState::restore(4_200, 3, 120, 120, 7_000_000, 100_000, 400_000, 80, 60, 40);
    assert_eq!((g.score, g.lives), (4_200, 3));
    assert_eq!(g.player.last_shot_time, 7_000_000);
    assert_eq!(g.spawn_timer, 400_000);
    assert_eq!(g.player.max_shields, 0);
    assert_eq!(g.player.invincible_timer, 0);
    assert_eq!(g.load_notification_timer, 2_000_000);
    assert_eq!((g.master_volume, g.sfx_volume, g.music_volume), (80, 60, 40));
    // The save holds no shield capacity, so an orb cannot add a charge.
    g.player.collect_powerup(PowerUpType::Shield);
    assert_eq!(g.player.shields, 0);
    // No invincibility after loading: a hit costs a life at once.
    assert_eq!(g.resolve_player_hit(), HitOutcome::Died);
}

#[test]
fn landed_spinners_wipe_the_formation() {
    assert!(!landing_wipes_formation(&vec![]));
    assert!(!landing_wipes_formation(&vec![EnemyType::BigRock, EnemyType::PolySnake]));
    assert!(landing_wipes_formation(&vec![EnemyType::BigRock, EnemyType::BigSpinner]));
    assert!(landing_wipes_formation(&vec![EnemyType::SmallSpinner]));
}

#[test]
fn higher_multiplier_spawns_sooner() {
    let mut low = GameState::new(0, 100, 100, 100);
    let mut high = GameState::new(100_001, 100, 100, 100);
    assert_eq!(low.spawn_step_with_rolls(800_001, 9_999, 9_999), None);
    assert_eq!(high.spawn_step_with_rolls(800_001, 9_999, 9_999), Some(EnemyType::BigRock));
}

#[test]
fn odd_width_ship_centres_its_formation() {
    let mut g = GameState::restore(0, 3, 121, 120, 0, 100_000, 0, 80, 60, 40);
    g.player.add_sidekick();
    g.player.add_sidekick();
    let offsets: Vec<i64> = g.player.sidekicks.iter().map(|s| s.offset_x_half_px).collect();
    assert_eq!(offsets, vec![-201, 201]);
}

#[test]
fn a_frame_costs_at_most_one_life() {
    let mut g = GameState::new(300, 100, 100, 100);
    g.player.update(RESPAWN_INVINCIBILITY_US);
    assert_eq!(g.resolve_landings(&vec![EnemyType::SmallSpinner, EnemyType::BigRock]), HitOutcome::Died);
    g.award_kills(&vec![EnemyType::UFO], 1);
    assert_eq!(g.resolve_player_hit(), HitOutcome::Unaffected);
    assert_eq!(g.lives, START_LIVES - 1);
    assert_eq!(g.score, 395);
}

#[test]
fn frames_of_any_length_are_handled() {
    let mut g = GameState::new(0, 100, 100, 100);
    assert_eq!(g.begin_frame(&frame(i64::MAX)), FrameStart::Alive);
    assert!(g.player.invincible_timer < 0);
    assert_eq!(g.spawn_step_with_rolls(i64::MAX, 9_999, 9_999), Some(EnemyType::BigRock));
    assert_eq!(g.spawn_timer, 0);
    g.player.update(i64::MAX);
    assert_eq!(ufo_bomb_tick(i64::MIN, i64::MAX), (UFO_BOMB_COOLDOWN_US, true));
    assert_eq!(ufo_bomb_tick(i64::MAX, 1), (i64::MAX - 1, false));
}

#[test]
fn saved_values_of_any_size_are_restored() {
    let mut g = GameState::restore(10, 2, i32::MAX, 120, i64::MIN, i64::MAX, i64::MIN, 80, 60, 40);
    assert_eq!(g.player.width, i32::MAX);
    assert_eq!(g.spawn_step_with_rolls(i64::MAX, 9_999, 9_999), None);
    assert_eq!(g.spawn_timer, i64::MIN + i64::MAX);
    assert!(!g.player.fire(true, -1));
    assert!(g.player.fire(true, 0));
    g.player.add_sidekick();
    assert_eq!(g.player.sidekicks[0].offset_x_half_px, -(i32::MAX as i64 + 80));
    let mut g = GameState::restore(10, 2, 120, 120, i64::MIN, 0, i64::MAX, 80, 60, 40);
    assert!(g.player.fire(true, i64::MAX));
    assert_eq!(g.spawn_step_with_rolls(i64::MAX, 9_999, 9_999), Some(EnemyType::BigRock));
}
