use rustoblast::flow::{Request, Scene, SceneEvent, SceneFlow};
use rustoblast::game::GameAction;
use rustoblast::game_over::{GameOverAction, GameOverInput, GameOverState};
use rustoblast::menu::{wrap_next, wrap_prev, MainMenuAction, MainMenuInput, MainMenuState, StartupSpeech};
use rustoblast::options::{OptionsAction, OptionsInput, OptionsState};
use rustoblast::pause::{PauseAction, PauseInput, PauseState};
use rustoblast::playlist::Playlist;
use rustoblast::windowing::{WindowCommand, WindowManager};

fn menu_input() -> MainMenuInput {
    MainMenuInput {
        nav_down: false,
        nav_up: false,
        confirm: false,
        new_game_key: false,
        options_key: false,
        load_key: false,
        quit_key: false,
        mouse_pressed: false,
        hovered: [false; 4],
    }
}

fn pause_input() -> PauseInput {
    PauseInput {
        dt_us: 16_000,
        nav_down: false,
        nav_up: false,
        confirm: false,
        resume_key: false,
        mouse_pressed: false,
        hovered: [false; 6],
    }
}

fn options_input() -> OptionsInput {
    OptionsInput {
        dt_us: 100_000,
        nav_down: false,
        nav_up: false,
        nav_left_pressed: false,
        move_left_down: false,
        nav_right_pressed: false,
        move_right_down: false,
        row_hovered: [false; 4],
        on_left_arrow: [false; 3],
        on_right_arrow: [false; 3],
        on_back_label: false,
        mouse_down: false,
        mouse_pressed: false,
        confirm: false,
        escape: false,
    }
}

#[test]
fn navigation_wraps_both_ways() {
    assert_eq!(wrap_next(3, 4), 0);
    assert_eq!(wrap_prev(0, 4), 3);
    for i in 0..6 {
        assert_eq!(wrap_prev(wrap_next(i, 6), 6), i);
    }
}

#[test]
fn main_menu_keys() {
    let mut m = MainMenuState::new();
    let mut i = menu_input();
    i.nav_up = true;
    assert_eq!(m.update(&i), MainMenuAction::Idle);
    assert_eq!(m.selected_index, 3);
    let mut i = menu_input();
    i.confirm = true;
    assert_eq!(m.update(&i), MainMenuAction::Quit);
    let mut i = menu_input();
    i.nav_down = true;
    i.confirm = true;
    assert_eq!(m.update(&i), MainMenuAction::NewGame);
    let mut i = menu_input();
    i.load_key = true;
    assert_eq!(m.update(&i), MainMenuAction::LoadGame);
    let mut i = menu_input();
    i.options_key = true;
    i.quit_key = true;
    assert_eq!(m.update(&i), MainMenuAction::Options);
}

#[test]
fn main_menu_mouse() {
    let mut m = MainMenuState::new();
    let mut i = menu_input();
    i.hovered = [false, false, true, false];
    assert_eq!(m.update(&i), MainMenuAction::Idle);
    assert_eq!(m.selected_index, 2);
    i.mouse_pressed = true;
    assert_eq!(m.update(&i), MainMenuAction::LoadGame);
    let mut i = menu_input();
    i.hovered = [false, true, false, true];
    assert_eq!(m.update(&i), MainMenuAction::Idle);
    assert_eq!(m.selected_index, 3);
    i.mouse_pressed = true;
    assert_eq!(m.update(&i), MainMenuAction::Options);
}

#[test]
fn pause_menu_actions() {
    let mut p = PauseState::new();
    let mut i = pause_input();
    i.confirm = true;
    assert_eq!(p.update(&i, true), PauseAction::Resume);
    let mut i = pause_input();
    i.nav_down = true;
    i.confirm = true;
    assert_eq!(p.update(&i, true), PauseAction::Save);
    assert_eq!(p.notification_timer, 2_000_000);
    let mut i = pause_input();
    i.confirm = true;
    assert_eq!(p.update(&i, false), PauseAction::Idle);
    assert_eq!(p.notification_timer, 2_000_000 - 16_000);
    let mut i = pause_input();
    i.resume_key = true;
    assert_eq!(p.update(&i, true), PauseAction::Resume);
    let mut i = pause_input();
    i.nav_up = true;
    i.nav_up = true;
    assert_eq!(p.update(&i, true), PauseAction::Idle);
    assert_eq!(p.selected_index, 0);
    let mut i = pause_input();
    i.hovered = [false, false, false, false, true, false];
    i.mouse_pressed = true;
    assert_eq!(p.update(&i, true), PauseAction::MainMenu);
    let mut i = pause_input();
    i.hovered = [false, false, false, false, false, true];
    assert_eq!(p.update(&i, true), PauseAction::Idle);
    assert_eq!(p.selected_index, 5);
    let mut i = pause_input();
    i.confirm = true;
    assert_eq!(p.update(&i, true), PauseAction::Quit);
}

#[test]
fn options_keyboard_adjusts_and_repeats() {
    let mut o = OptionsState::new(100, 50, 100);
    let mut i = options_input();
    i.move_right_down = true;
    i.nav_right_pressed = true;
    assert_eq!(o.update(&i), OptionsAction::Idle);
    assert_eq!(o.master_volume, 100);
    let mut i = options_input();
    i.nav_down = true;
    assert_eq!(o.update(&i), OptionsAction::Idle);
    assert_eq!(o.selected_index, 1);
    let mut i = options_input();
    i.move_left_down = true;
    i.nav_left_pressed = true;
    o.update(&i);
    assert_eq!(o.sfx_volume, 49);
    let mut i = options_input();
    i.move_left_down = true;
    o.update(&i);
    o.update(&i);
    assert_eq!(o.sfx_volume, 49);
    o.update(&i);
    assert_eq!(o.sfx_volume, 48);
    o.update(&i);
    assert_eq!(o.sfx_volume, 47);
    let i = options_input();
    o.update(&i);
    assert_eq!(o.key_hold_timer, 0);
    let mut i = options_input();
    i.escape = true;
    assert_eq!(o.update(&i), OptionsAction::Back(100, 47, 100));
}

#[test]
fn options_volume_stays_in_range() {
    let mut o = OptionsState::new(0, 0, 0);
    let mut i = options_input();
    i.move_left_down = true;
    i.nav_left_pressed = true;
    o.update(&i);
    assert_eq!(o.master_volume, 0);
}

#[test]
fn options_mouse_arrows_and_back() {
    let mut o = OptionsState::new(50, 50, 50);
    let mut i = options_input();
    i.row_hovered = [false, false, true, false];
    i.on_right_arrow = [false, false, true];
    i.mouse_down = true;
    assert_eq!(o.update(&i), OptionsAction::Idle);
    assert_eq!(o.selected_index, 2);
    assert_eq!(o.music_volume, 51);
    // Without an arrow key held the hold restarts each frame, so a held
    // mouse arrow steps every frame.
    o.update(&i);
    assert_eq!(o.music_volume, 52);
    let mut i = options_input();
    i.row_hovered = [false, false, false, true];
    i.on_back_label = true;
    i.mouse_pressed = true;
    assert_eq!(o.update(&i), OptionsAction::Back(50, 50, 52));
    assert_eq!(o.selected_index, 3);
    let mut i = options_input();
    i.confirm = true;
    assert_eq!(o.update(&i), OptionsAction::Back(50, 50, 52));
}

#[test]
fn game_over_menu() {
    let mut g = GameOverState::new(4_321);
    let mut i = GameOverInput { nav_down: false, nav_up: false, confirm: false, mouse_pressed: false, hovered: [false; 3] };
    assert_eq!(g.update(&i), (GameOverAction::Idle, true));
    assert_eq!(g.update(&i), (GameOverAction::Idle, false));
    i.nav_up = true;
    i.confirm = true;
    assert_eq!(g.update(&i), (GameOverAction::Quit, false));
    let mut i = GameOverInput { nav_down: false, nav_up: false, confirm: false, mouse_pressed: true, hovered: [false, true, true] };
    assert_eq!(g.update(&i), (GameOverAction::MainMenu, false));
    assert_eq!(g.selected_option, 1);
    i.hovered = [true, false, false];
    i.mouse_pressed = false;
    assert_eq!(g.update(&i), (GameOverAction::Idle, false));
    assert_eq!(g.selected_option, 0);
    assert_eq!(g.score, 4_321);
}

#[test]
fn alt_enter_toggles_fullscreen() {
    let mut w = WindowManager::new(true);
    assert!(w.is_fullscreen);
    assert_eq!(w.update(true, false), WindowCommand::Keep);
    assert_eq!(w.update(true, true), WindowCommand::Windowed { width: 2560, height: 1440 });
    assert!(!w.is_fullscreen);
    assert_eq!(w.update(true, true), WindowCommand::Fullscreen);
    assert!(w.is_fullscreen);
}

#[test]
fn windowed_start_toggles_to_fullscreen_first() {
    let mut w = WindowManager::new(false);
    assert!(!w.is_fullscreen);
    assert_eq!(w.update(true, true), WindowCommand::Fullscreen);
    assert!(w.is_fullscreen);
}

#[test]
fn playlist_skip_restart_and_back() {
    let mut p = Playlist::new(3);
    assert!(p.next_track());
    assert!(p.next_track());
    assert_eq!(p.current_track_index, 2);
    assert!(p.next_track());
    assert_eq!(p.current_track_index, 0);
    assert!(p.previous_or_restart(5_000_000));
    assert_eq!(p.current_track_index, 0);
    assert!(p.previous_or_restart(5_500_000));
    assert_eq!(p.current_track_index, 2);
    assert!(p.previous_or_restart(7_000_000));
    assert_eq!(p.current_track_index, 2);
    let mut empty = Playlist::new(0);
    assert!(!empty.next_track());
    assert!(!empty.previous_or_restart(0));
}

#[test]
fn startup_speech_plays_once_after_three_seconds() {
    let mut s = StartupSpeech::new();
    assert!(!s.tick(2_000_000));
    assert!(s.tick(1_000_000));
    assert!(!s.tick(5_000_000));
}

#[test]
fn options_return_to_where_they_were_opened() {
    let back = SceneEvent::Settings(OptionsAction::Back(1, 2, 3));

    let mut f = SceneFlow::new();
    assert_eq!(f.step(SceneEvent::Menu(MainMenuAction::Options)), Request::Switch(Scene::Options));
    assert_eq!(f.step(back), Request::Switch(Scene::MainMenu));
    assert_eq!(f.scene, Scene::MainMenu);

    assert_eq!(f.step(SceneEvent::Menu(MainMenuAction::NewGame)), Request::Switch(Scene::Game));
    assert_eq!(f.step(SceneEvent::Play(GameAction::Options)), Request::Switch(Scene::Options));
    assert_eq!(f.step(back), Request::Switch(Scene::Game));

    assert_eq!(f.step(SceneEvent::Play(GameAction::Pause)), Request::Switch(Scene::Pause));
    assert_eq!(f.step(SceneEvent::Paused(PauseAction::Options)), Request::Switch(Scene::Options));
    assert_eq!(f.step(SceneEvent::Settings(OptionsAction::Idle)), Request::Stay);
    assert_eq!(f.step(back), Request::Switch(Scene::Pause));
    assert_eq!(f.step(SceneEvent::Paused(PauseAction::Save)), Request::Stay);
    assert_eq!(f.step(SceneEvent::Paused(PauseAction::Load)), Request::LoadAndPlay);
    assert_eq!(f.scene, Scene::Pause);
    f.enter_loaded_game();
    assert_eq!(f.step(SceneEvent::Play(GameAction::GameOver)), Request::Switch(Scene::GameOver));
    // An event of another screen changes nothing.
    assert_eq!(f.step(SceneEvent::Menu(MainMenuAction::Quit)), Request::Stay);
    assert_eq!(f.step(SceneEvent::Over(GameOverAction::Replay)), Request::Switch(Scene::Game));
    assert_eq!(f.step(SceneEvent::Play(GameAction::Pause)), Request::Switch(Scene::Pause));
    assert_eq!(f.step(SceneEvent::Paused(PauseAction::Quit)), Request::Quit);
}

#[test]
fn game_over_jingle_is_one_of_three() {
    let mut seen = [false; 3];
    for _ in 0..300 {
        let j = rustoblast::game_over::pick_jingle();
        assert!(j < 3);
        seen[j as usize] = true;
    }
    assert!(seen.iter().filter(|s| **s).count() >= 2);
}

#[test]
fn options_move_only_the_selected_volume_within_range() {
    let mut o = OptionsState::new(100, 0, 50);
    let mut input = options_input();
    input.nav_right_pressed = true;
    input.move_right_down = true;
    assert_eq!(o.update(&input), OptionsAction::Idle);
    assert_eq!((o.master_volume, o.sfx_volume, o.music_volume), (100, 0, 50));

    let mut down = options_input();
    down.nav_down = true;
    o.update(&down);
    let mut left = options_input();
    left.nav_left_pressed = true;
    left.move_left_down = true;
    o.update(&left);
    assert_eq!((o.master_volume, o.sfx_volume, o.music_volume), (100, 0, 50));

    o.update(&down);
    o.update(&left);
    assert_eq!((o.master_volume, o.sfx_volume, o.music_volume), (100, 0, 49));

    o.update(&down);
    o.update(&left);
    assert_eq!((o.master_volume, o.sfx_volume, o.music_volume), (100, 0, 49));
}

#[test]
fn leaving_options_hands_back_the_current_volumes() {
    let mut o = OptionsState::new(70, 60, 50);
    let mut input = options_input();
    input.nav_right_pressed = true;
    input.move_right_down = true;
    input.escape = true;
    assert_eq!(o.update(&input), OptionsAction::Back(71, 60, 50));
    assert_eq!((o.master_volume, o.sfx_volume, o.music_volume), (71, 60, 50));
}

#[test]
fn long_frames_on_menus() {
    let mut o = OptionsState::new(70, 60, 50);
    let mut input = options_input();
    input.dt_us = i64::MAX;
    input.escape = true;
    assert_eq!(o.update(&input), OptionsAction::Back(70, 60, 50));

    let mut p = PauseState::new();
    let mut input = pause_input();
    input.dt_us = i64::MAX;
    input.resume_key = true;
    assert_eq!(p.update(&input, true), PauseAction::Resume);

    let mut s = StartupSpeech::new();
    assert!(!s.tick(1));
    assert!(s.tick(i64::MAX));
    assert_eq!(s.elapsed_us, i64::MAX);
    assert!(!s.tick(i64::MAX));
}
