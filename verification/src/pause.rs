use crate::constants::NOTICE_US;
use crate::menu::{
    first_hit, first_hovered, hover_select, hover_selection, next_index, prev_index, wrap_next,
    wrap_prev,
};
use crate::player::tick_down;
use vstd::prelude::*;

verus! {

/// Number of entries of the pause menu: RESUME, SAVE, OPTIONS, LOAD, QUIT
/// TO MAIN MENU, QUIT.
pub const PAUSE_ENTRIES: usize = 6;

/// What the pause menu asks of the scene manager.
#[derive(Clone, Copy, Debug, PartialEq, Eq, Structural)]
pub enum PauseAction {
    Idle,
    Resume,
    /// Write the paused game to the save file and stay in the menu.
    Save,
    Options,
    Load,
    MainMenu,
    Quit,
}

/// Keys and mouse of one frame of the pause menu. `hovered[i]` says whether
/// the pointer lies on entry `i`.
#[derive(Clone, Copy, Debug)]
pub struct PauseInput {
    /// Length of the frame in microseconds.
    pub dt_us: i64,
    pub nav_down: bool,
    pub nav_up: bool,
    /// Enter or space.
    pub confirm: bool,
    /// P or Escape.
    pub resume_key: bool,
    /// Left button pressed this frame.
    pub mouse_pressed: bool,
    pub hovered: [bool; 6],
}

/// The pause menu's selection and its "GAME SAVED" notice timer.
#[derive(Clone, Copy, Debug)]
pub struct PauseState {
    pub selected_index: usize,
    pub notification_timer: i64,
}

/// The action of pause menu entry `index`; saving needs a game to save.
pub open spec fn pause_entry_action(index: int, has_game: bool) -> PauseAction {
    if index == 0 {
        PauseAction::Resume
    } else if index == 1 {
        if has_game {
            PauseAction::Save
        } else {
            PauseAction::Idle
        }
    } else if index == 2 {
        PauseAction::Options
    } else if index == 3 {
        PauseAction::Load
    } else if index == 4 {
        PauseAction::MainMenu
    } else {
        PauseAction::Quit
    }
}

impl PauseState {
    pub open spec fn wf(&self) -> bool {
        &&& self.selected_index < PAUSE_ENTRIES
    }

    /// Selection after the arrow keys of a frame.
    pub open spec fn navigated(sel: int, input: PauseInput) -> int {
        let a = if input.nav_down {
            next_index(sel, PAUSE_ENTRIES as int)
        } else {
            sel
        };
        if input.nav_up {
            prev_index(a, PAUSE_ENTRIES as int)
        } else {
            a
        }
    }

    pub fn new() -> (p: Self)
        ensures
            p.wf(),
            p.selected_index == 0,
            p.notification_timer == 0,
    {
        PauseState { selected_index: 0, notification_timer: 0 }
    }

    /// One frame of the pause menu: the notice fades; arrows move the
    /// selection (wrapping); confirm activates the selected entry; P or
    /// Escape resumes; a click activates the first entry under the pointer;
    /// hovering selects the entry under the pointer. Saving (only with a
    /// game to save) shows the notice for two seconds.
    pub fn update(&mut self, input: &PauseInput, has_game: bool) -> (action: PauseAction)
        requires
            old(self).wf(),
            0 <= input.dt_us,
        ensures
            final(self).wf(),
            ({
                let timer = tick_down(old(self).notification_timer as int, input.dt_us as int);
                let sel = Self::navigated(old(self).selected_index as int, *input);
                let hits = input.hovered@;
                let chosen = if input.confirm {
                    Some(sel)
                } else if input.resume_key {
                    Some(0int)
                } else if input.mouse_pressed {
                    first_hit(hits)
                } else {
                    None
                };
                match chosen {
                    Some(i) => {
                        &&& final(self).selected_index == sel
                        &&& action == pause_entry_action(i, has_game)
                        &&& final(self).notification_timer == if action == PauseAction::Save {
                            NOTICE_US as int
                        } else {
                            timer
                        }
                    },
                    None => {
                        &&& final(self).selected_index == hover_selection(hits, sel)
                        &&& action == PauseAction::Idle
                        &&& final(self).notification_timer == timer
                    },
                }
            }),
    {
        if self.notification_timer > 0 {
            self.notification_timer = self.notification_timer - input.dt_us;
        }
        if input.nav_down {
            self.selected_index = wrap_next(self.selected_index, PAUSE_ENTRIES);
        }
        if input.nav_up {
            self.selected_index = wrap_prev(self.selected_index, PAUSE_ENTRIES);
        }
        if input.confirm {
            return self.activate(self.selected_index, has_game);
        }
        if input.resume_key {
            return PauseAction::Resume;
        }
        if input.mouse_pressed {
            if let Some(i) = first_hovered(&input.hovered) {
                return self.activate(i, has_game);
            }
        }
        self.selected_index = hover_select(self.selected_index, &input.hovered);
        PauseAction::Idle
    }

    /// Activates entry `index`; a save starts the notice.
    fn activate(&mut self, index: usize, has_game: bool) -> (action: PauseAction)
        requires
            old(self).wf(),
        ensures
            final(self).wf(),
            action == pause_entry_action(index as int, has_game),
            final(self).selected_index == old(self).selected_index,
            final(self).notification_timer == if action == PauseAction::Save {
                NOTICE_US
            } else {
                old(self).notification_timer
            },
    {
        match index {
            0 => PauseAction::Resume,
            1 => {
                if has_game {
                    self.notification_timer = NOTICE_US;
                    PauseAction::Save
                } else {
                    PauseAction::Idle
                }
            },
            2 => PauseAction::Options,
            3 => PauseAction::Load,
            4 => PauseAction::MainMenu,
            _ => PauseAction::Quit,
        }
    }
}

/// The pause menu's entries, top to bottom: RESUME, SAVE (which does
/// nothing without a game to save), OPTIONS, LOAD, QUIT TO MAIN MENU and
/// QUIT. Each entry does something different.
pub proof fn lemma_pause_entries(has_game: bool)
    ensures
        pause_entry_action(0, has_game) == PauseAction::Resume,
        pause_entry_action(1, true) == PauseAction::Save,
        pause_entry_action(1, false) == PauseAction::Idle,
        pause_entry_action(2, has_game) == PauseAction::Options,
        pause_entry_action(3, has_game) == PauseAction::Load,
        pause_entry_action(4, has_game) == PauseAction::MainMenu,
        pause_entry_action(5, has_game) == PauseAction::Quit,
        forall|i: int, j: int|
            0 <= i < j < PAUSE_ENTRIES && pause_entry_action(i, true) == pause_entry_action(
                j,
                true,
            ) ==> false,
{
}

} // verus!
