use vstd::arithmetic::div_mod::{lemma_mod_self_0, lemma_small_mod};
use vstd::prelude::*;

verus! {

/// Number of entries of the main menu: NEW GAME, OPTIONS, LOAD GAME, QUIT.
pub const MAIN_MENU_ENTRIES: usize = 4;

/// Moving down a menu of `count` entries wraps from the last to the first.
pub open spec fn next_index(index: int, count: int) -> int {
    (index + 1) % count
}

/// Moving up a menu of `count` entries wraps from the first to the last.
pub open spec fn prev_index(index: int, count: int) -> int {
    if index == 0 {
        count - 1
    } else {
        index - 1
    }
}

/// The next entry down, wrapping around.
pub fn wrap_next(index: usize, count: usize) -> (r: usize)
    requires
        index < count,
    ensures
        r == next_index(index as int, count as int),
        r < count,
{
    (index + 1) % count
}

/// The next entry up, wrapping around.
pub fn wrap_prev(index: usize, count: usize) -> (r: usize)
    requires
        index < count,
    ensures
        r == prev_index(index as int, count as int),
        r < count,
{
    if index == 0 {
        count - 1
    } else {
        index - 1
    }
}

/// Moving down then up, or up then down, comes back to the same entry.
pub proof fn lemma_nav_round_trip(index: int, count: int)
    requires
        0 <= index < count,
    ensures
        prev_index(next_index(index, count), count) == index,
        next_index(prev_index(index, count), count) == index,
        0 <= next_index(index, count) < count,
        0 <= prev_index(index, count) < count,
{
    lemma_next_index(index, count);
    lemma_next_index(prev_index(index, count), count);
}

proof fn lemma_next_index(index: int, count: int)
    requires
        0 <= index < count,
    ensures
        next_index(index, count) == if index + 1 < count {
            index + 1
        } else {
            0
        },
{
    if index + 1 < count {
        lemma_small_mod((index + 1) as nat, count as nat);
    } else {
        lemma_mod_self_0(count);
    }
}

/// The first hovered entry, if any.
pub open spec fn first_hit(hits: Seq<bool>) -> Option<int> {
    if exists|i: int| 0 <= i < hits.len() && hits[i] {
        Some(choose|i: int| 0 <= i < hits.len() && hits[i] && forall|j: int| 0 <= j < i ==> !hits[j])
    } else {
        None
    }
}

/// The selection after hovering: the last entry under the pointer, or the
/// current selection when the pointer is on none.
pub open spec fn hover_selection(hits: Seq<bool>, sel: int) -> int {
    if exists|i: int| 0 <= i < hits.len() && hits[i] {
        choose|i: int| 0 <= i < hits.len() && hits[i] && forall|j: int| i < j < hits.len() ==> !hits[j]
    } else {
        sel
    }
}

/// The first entry under the pointer.
pub fn first_hovered(hits: &[bool]) -> (r: Option<usize>)
    ensures
        r == (match first_hit(hits@) {
            Some(i) => Some(i as usize),
            None => None::<usize>,
        }),
        r matches Some(i) ==> i < hits.len(),
{
    let mut i: usize = 0;
    while i < hits.len()
        invariant
            0 <= i <= hits.len(),
            forall|j: int| 0 <= j < i ==> !hits@[j],
        decreases hits.len() - i,
    {
        if hits[i] {
            proof {
                let w = choose|k: int|
                    0 <= k < hits@.len() && hits@[k] && forall|j: int| 0 <= j < k ==> !hits@[j];
                assert(0 <= i < hits@.len() && hits@[i as int]);
                assert(w == i);
            }
            return Some(i);
        }
        i = i + 1;
    }
    None
}

/// Applies hovering to a selection: the last entry under the pointer wins.
pub fn hover_select(sel: usize, hits: &[bool]) -> (r: usize)
    ensures
        r == hover_selection(hits@, sel as int),
        sel < hits.len() ==> r < hits.len(),
{
    let mut r = sel;
    let mut i: usize = 0;
    while i < hits.len()
        invariant
            0 <= i <= hits.len(),
            (exists|k: int| 0 <= k < i && hits@[k]) ==> r < i && hits@[r as int] && forall|j: int|
                r < j < i ==> !hits@[j],
            !(exists|k: int| 0 <= k < i && hits@[k]) ==> r == sel,
        decreases hits.len() - i,
    {
        if hits[i] {
            r = i;
        }
        i = i + 1;
    }
    proof {
        if exists|k: int| 0 <= k < hits@.len() && hits@[k] {
            let w = choose|k: int|
                0 <= k < hits@.len() && hits@[k] && forall|j: int| k < j < hits@.len() ==> !hits@[j];
            assert(w == r);
        }
    }
    r
}

/// What the main menu asks of the scene manager.
#[derive(Clone, Copy, Debug, PartialEq, Eq, Structural)]
pub enum MainMenuAction {
    Idle,
    NewGame,
    Options,
    LoadGame,
    Quit,
}

/// The action of a main menu entry.
pub open spec fn main_entry_action(index: int) -> MainMenuAction {
    if index == 0 {
        MainMenuAction::NewGame
    } else if index == 1 {
        MainMenuAction::Options
    } else if index == 2 {
        MainMenuAction::LoadGame
    } else {
        MainMenuAction::Quit
    }
}

/// Keys and mouse of one frame of the main menu. `hovered[i]` says whether
/// the pointer lies on entry `i`.
#[derive(Clone, Copy, Debug)]
pub struct MainMenuInput {
    pub nav_down: bool,
    pub nav_up: bool,
    /// Enter or space.
    pub confirm: bool,
    /// The N, O, L and Q shortcuts.
    pub new_game_key: bool,
    pub options_key: bool,
    pub load_key: bool,
    pub quit_key: bool,
    /// Left button pressed this frame.
    pub mouse_pressed: bool,
    pub hovered: [bool; 4],
}

/// The main menu's selection.
#[derive(Clone, Copy, Debug)]
pub struct MainMenuState {
    pub selected_index: usize,
}

impl MainMenuState {
    pub open spec fn wf(&self) -> bool {
        self.selected_index < MAIN_MENU_ENTRIES
    }

    /// Selection after the arrow keys of a frame.
    pub open spec fn navigated(sel: int, input: MainMenuInput) -> int {
        let a = if input.nav_down {
            next_index(sel, MAIN_MENU_ENTRIES as int)
        } else {
            sel
        };
        if input.nav_up {
            prev_index(a, MAIN_MENU_ENTRIES as int)
        } else {
            a
        }
    }

    pub fn new() -> (m: Self)
        ensures
            m.wf(),
            m.selected_index == 0,
    {
        MainMenuState { selected_index: 0 }
    }

    /// One frame of the main menu: arrows move the selection (wrapping),
    /// confirm activates the selected entry, the N/O/L/Q shortcuts act
    /// directly, a click activates the first entry under the pointer, and
    /// hovering selects the entry under the pointer.
    pub fn update(&mut self, input: &MainMenuInput) -> (action: MainMenuAction)
        requires
            old(self).wf(),
        ensures
            final(self).wf(),
            ({
                let sel = Self::navigated(old(self).selected_index as int, *input);
                let hits = input.hovered@;
                if input.confirm {
                    final(self).selected_index == sel && action == main_entry_action(sel)
                } else if input.new_game_key {
                    final(self).selected_index == sel && action == MainMenuAction::NewGame
                } else if input.options_key {
                    final(self).selected_index == sel && action == MainMenuAction::Options
                } else if input.load_key {
                    final(self).selected_index == sel && action == MainMenuAction::LoadGame
                } else if input.quit_key {
                    final(self).selected_index == sel && action == MainMenuAction::Quit
                } else if input.mouse_pressed && first_hit(hits) is Some {
                    final(self).selected_index == sel && action == main_entry_action(
                        first_hit(hits)->0,
                    )
                } else {
                    final(self).selected_index == hover_selection(hits, sel)
                        && action == MainMenuAction::Idle
                }
            }),
    {
        if input.nav_down {
            self.selected_index = wrap_next(self.selected_index, MAIN_MENU_ENTRIES);
        }
        if input.nav_up {
            self.selected_index = wrap_prev(self.selected_index, MAIN_MENU_ENTRIES);
        }
        if input.confirm {
            return entry_action(self.selected_index);
        }
        if input.new_game_key {
            return MainMenuAction::NewGame;
        }
        if input.options_key {
            return MainMenuAction::Options;
        }
        if input.load_key {
            return MainMenuAction::LoadGame;
        }
        if input.quit_key {
            return MainMenuAction::Quit;
        }
        if input.mouse_pressed {
            if let Some(i) = first_hovered(&input.hovered) {
                return entry_action(i);
            }
        }
        self.selected_index = hover_select(self.selected_index, &input.hovered);
        MainMenuAction::Idle
    }
}

/// The action of a main menu entry.
pub fn entry_action(index: usize) -> (action: MainMenuAction)
    ensures
        action == main_entry_action(index as int),
{
    match index {
        0 => MainMenuAction::NewGame,
        1 => MainMenuAction::Options,
        2 => MainMenuAction::LoadGame,
        _ => MainMenuAction::Quit,
    }
}

/// How long the main menu waits before its spoken title.
pub const SPEECH_DELAY_US: i64 = 3_000_000;

/// The spoken title of the main menu, played once after the menu has been
/// shown for three seconds.
#[derive(Clone, Copy, Debug)]
pub struct StartupSpeech {
    pub elapsed_us: i64,
    pub played: bool,
}

impl StartupSpeech {
    pub open spec fn wf(&self) -> bool {
        &&& 0 <= self.elapsed_us
        &&& !self.played ==> self.elapsed_us < SPEECH_DELAY_US
    }

    pub fn new() -> (s: Self)
        ensures
            s.wf(),
            s.elapsed_us == 0,
            !s.played,
    {
        StartupSpeech { elapsed_us: 0, played: false }
    }

    /// A frame of `dt_us` microseconds on the main menu. Returns whether the
    /// speech starts now. The time shown stops at the largest value an `i64`
    /// holds, long past the delay.
    pub fn tick(&mut self, dt_us: i64) -> (start: bool)
        requires
            old(self).wf(),
            0 <= dt_us,
        ensures
            final(self).wf(),
            old(self).played ==> !start && *final(self) == *old(self),
            !old(self).played ==> final(self).elapsed_us == (if old(self).elapsed_us + dt_us
                > i64::MAX {
                i64::MAX as int
            } else {
                old(self).elapsed_us + dt_us
            }) && start == (old(self).elapsed_us + dt_us >= SPEECH_DELAY_US),
            !old(self).played ==> final(self).played == start,
    {
        if self.played {
            return false;
        }
        self.elapsed_us = if dt_us > i64::MAX - self.elapsed_us {
            i64::MAX
        } else {
            self.elapsed_us + dt_us
        };
        if self.elapsed_us >= SPEECH_DELAY_US {
            self.played = true;
            true
        } else {
            false
        }
    }
}

/// The main menu's entries, top to bottom: NEW GAME, OPTIONS, LOAD GAME
/// and QUIT, each doing something different.
pub proof fn lemma_main_menu_entries()
    ensures
        main_entry_action(0) == MainMenuAction::NewGame,
        main_entry_action(1) == MainMenuAction::Options,
        main_entry_action(2) == MainMenuAction::LoadGame,
        main_entry_action(3) == MainMenuAction::Quit,
        forall|i: int, j: int|
            0 <= i < j < MAIN_MENU_ENTRIES && main_entry_action(i) == main_entry_action(j)
                ==> false,
{
}

} // verus!
