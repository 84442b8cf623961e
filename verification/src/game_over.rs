use crate::menu::{next_index, prev_index, wrap_next, wrap_prev};
use crate::random::gen_range_u32;
use vstd::prelude::*;

verus! {

/// Number of entries of the game-over screen: REPLAY, MAIN MENU, QUIT.
pub const GAME_OVER_ENTRIES: usize = 3;

/// What the game-over screen asks of the scene manager.
#[derive(Clone, Copy, Debug, PartialEq, Eq, Structural)]
pub enum GameOverAction {
    Idle,
    Replay,
    MainMenu,
    Quit,
}

/// Keys and mouse of one frame of the game-over screen. `hovered[i]` says
/// whether the pointer lies in the band of entry `i`.
#[derive(Clone, Copy, Debug)]
pub struct GameOverInput {
    pub nav_down: bool,
    pub nav_up: bool,
    /// Enter or space.
    pub confirm: bool,
    /// Left button pressed this frame.
    pub mouse_pressed: bool,
    pub hovered: [bool; 3],
}

/// The final score, whether the game-over jingle has been started, and the
/// selection.
#[derive(Clone, Copy, Debug)]
pub struct GameOverState {
    pub score: i32,
    pub sound_played: bool,
    pub selected_option: usize,
}

/// The action of game-over entry `index`.
pub open spec fn game_over_entry_action(index: int) -> GameOverAction {
    if index == 0 {
        GameOverAction::Replay
    } else if index == 1 {
        GameOverAction::MainMenu
    } else {
        GameOverAction::Quit
    }
}

/// The first band under the pointer: the bands are tested in order and the
/// first one that holds the pointer decides.
pub open spec fn hovered_band(hits: Seq<bool>) -> Option<int> {
    if hits[0] {
        Some(0int)
    } else if hits[1] {
        Some(1int)
    } else if hits[2] {
        Some(2int)
    } else {
        None
    }
}

impl GameOverState {
    pub open spec fn wf(&self) -> bool {
        self.selected_option < GAME_OVER_ENTRIES
    }

    /// Selection after the arrow keys of a frame.
    pub open spec fn navigated(sel: int, input: GameOverInput) -> int {
        let a = if input.nav_down {
            next_index(sel, GAME_OVER_ENTRIES as int)
        } else {
            sel
        };
        if input.nav_up {
            prev_index(a, GAME_OVER_ENTRIES as int)
        } else {
            a
        }
    }

    pub fn new(score: i32) -> (g: Self)
        ensures
            g.wf(),
            g.score == score,
            !g.sound_played,
            g.selected_option == 0,
    {
        GameOverState { score, sound_played: false, selected_option: 0 }
    }

    /// One frame of the game-over screen: the jingle starts on the first
    /// frame only; arrows move the selection (wrapping); confirm activates
    /// it; the pointer selects the band it is in and a click there
    /// activates it. Returns the action and whether to start the jingle.
    pub fn update(&mut self, input: &GameOverInput) -> (r: (GameOverAction, bool))
        requires
            old(self).wf(),
        ensures
            final(self).wf(),
            r.1 == !old(self).sound_played,
            final(self).sound_played,
            final(self).score == old(self).score,
            ({
                let sel = Self::navigated(old(self).selected_option as int, *input);
                if input.confirm {
                    final(self).selected_option == sel && r.0 == game_over_entry_action(sel)
                } else {
                    match hovered_band(input.hovered@) {
                        Some(b) => final(self).selected_option == b && r.0 == if input.mouse_pressed {
                            game_over_entry_action(b)
                        } else {
                            GameOverAction::Idle
                        },
                        None => final(self).selected_option == sel && r.0 == GameOverAction::Idle,
                    }
                }
            }),
    {
        let start_sound = !self.sound_played;
        self.sound_played = true;
        if input.nav_down {
            self.selected_option = wrap_next(self.selected_option, GAME_OVER_ENTRIES);
        }
        if input.nav_up {
            self.selected_option = wrap_prev(self.selected_option, GAME_OVER_ENTRIES);
        }
        if input.confirm {
            return (option_action(self.selected_option), start_sound);
        }
        let band = if input.hovered[0] {
            Some(0usize)
        } else if input.hovered[1] {
            Some(1usize)
        } else if input.hovered[2] {
            Some(2usize)
        } else {
            None
        };
        if let Some(b) = band {
            self.selected_option = b;
            if input.mouse_pressed {
                return (option_action(b), start_sound);
            }
        }
        (GameOverAction::Idle, start_sound)
    }
}

/// The action of game-over entry `index`.
pub fn option_action(index: usize) -> (action: GameOverAction)
    ensures
        action == game_over_entry_action(index as int),
{
    match index {
        0 => GameOverAction::Replay,
        1 => GameOverAction::MainMenu,
        _ => GameOverAction::Quit,
    }
}

/// Number of game-over jingles to choose from.
pub const GAME_OVER_JINGLES: u32 = 3;

/// Picks one of the game-over jingles with the game's generator.
pub fn pick_jingle() -> (index: u32)
    ensures
        index < GAME_OVER_JINGLES,
{
    gen_range_u32(0, GAME_OVER_JINGLES)
}

/// The game-over screen's entries, top to bottom: REPLAY, MAIN MENU and
/// QUIT, each doing something different.
pub proof fn lemma_game_over_entries()
    ensures
        game_over_entry_action(0) == GameOverAction::Replay,
        game_over_entry_action(1) == GameOverAction::MainMenu,
        game_over_entry_action(2) == GameOverAction::Quit,
        forall|i: int, j: int|
            0 <= i < j < GAME_OVER_ENTRIES && game_over_entry_action(i) == game_over_entry_action(
                j,
            ) ==> false,
{
}

} // verus!
