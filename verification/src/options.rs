use crate::constants::{KEY_REPEAT_DELAY_US, VOLUME_MAX};
use crate::menu::{next_index, prev_index, wrap_next, wrap_prev};
use vstd::prelude::*;

verus! {

/// Number of rows of the options screen: master, sound effects and music
/// volume sliders, then BACK.
pub const OPTIONS_ROWS: usize = 4;

/// Index of the BACK row.
pub const BACK_ROW: usize = 3;

/// What the options screen asks of the scene manager.
#[derive(Clone, Copy, Debug, PartialEq, Eq, Structural)]
pub enum OptionsAction {
    Idle,
    /// Leave with the master, sound effects and music volumes, in percent.
    Back(u32, u32, u32),
}

/// Keys and mouse of one frame of the options screen. Per row: whether the
/// pointer is on the row, on the slider's `<` or `>` arrow (slider rows
/// only), and whether it is on the BACK label.
#[derive(Clone, Copy, Debug)]
pub struct OptionsInput {
    /// Length of the frame in microseconds.
    pub dt_us: i64,
    pub nav_down: bool,
    pub nav_up: bool,
    /// Left / right pressed this frame, and held down.
    pub nav_left_pressed: bool,
    pub move_left_down: bool,
    pub nav_right_pressed: bool,
    pub move_right_down: bool,
    pub row_hovered: [bool; 4],
    pub on_left_arrow: [bool; 3],
    pub on_right_arrow: [bool; 3],
    pub on_back_label: bool,
    /// Left button held / pressed this frame.
    pub mouse_down: bool,
    pub mouse_pressed: bool,
    /// Enter or space.
    pub confirm: bool,
    pub escape: bool,
}

/// Selection, the three volumes in percent, and how long an adjusting key
/// or arrow has been held.
#[derive(Clone, Copy, Debug)]
pub struct OptionsState {
    pub selected_index: usize,
    pub master_volume: u32,
    pub sfx_volume: u32,
    pub music_volume: u32,
    pub key_hold_timer: i64,
}

/// A hold timer after `dt` more microseconds; it stops at the largest
/// value it can hold, past every threshold it is compared with.
pub open spec fn held_longer(hold: int, dt: int) -> int {
    if hold + dt > i64::MAX {
        i64::MAX as int
    } else {
        hold + dt
    }
}

/// A volume moved by `step` percent, kept within 0..=100.
pub open spec fn nudged(volume: int, step: int) -> int {
    let v = volume + step;
    if v < 0 {
        0
    } else if v > VOLUME_MAX {
        VOLUME_MAX as int
    } else {
        v
    }
}

/// The keyboard's slider adjustment and hold timer: a fresh press moves one
/// step and restarts the hold; a key held longer than the repeat delay
/// keeps moving; with no arrow held the hold resets.
pub open spec fn key_adjust(hold: int, input: OptionsInput) -> (int, int) {
    if input.move_left_down {
        if input.nav_left_pressed {
            (0, -1)
        } else {
            let h = held_longer(hold, input.dt_us as int);
            (h, if h > KEY_REPEAT_DELAY_US { -1 } else { 0 })
        }
    } else if input.move_right_down {
        if input.nav_right_pressed {
            (0, 1)
        } else {
            let h = held_longer(hold, input.dt_us as int);
            (h, if h > KEY_REPEAT_DELAY_US { 1 } else { 0 })
        }
    } else {
        (0, 0)
    }
}

/// A click on a slider arrow held with the mouse: a step at once when the
/// hold starts from zero, and steps while held past the repeat delay.
pub open spec fn arrow_hold(hold: int, nudge: int, step: int, dt: int) -> (int, int) {
    let n1 = if hold == 0 {
        step
    } else {
        nudge
    };
    let h = held_longer(hold, dt);
    (h, if h > KEY_REPEAT_DELAY_US { step } else { n1 })
}

/// The mouse on row `i`: `acc` is (selection, hold, mouse step, BACK
/// clicked). Hovering selects the row; on the selected row a held slider
/// arrow adjusts, and a click on BACK leaves.
pub open spec fn mouse_row(acc: (int, int, int, bool), i: int, input: OptionsInput) -> (
    int,
    int,
    int,
    bool,
) {
    let (sel0, hold, nudge, back) = acc;
    if back {
        acc
    } else {
        let sel = if input.row_hovered@[i] {
            i
        } else {
            sel0
        };
        if sel != i {
            (sel, hold, nudge, false)
        } else if i < BACK_ROW {
            if input.on_left_arrow@[i] {
                if input.mouse_down {
                    let (h, n) = arrow_hold(hold, nudge, -1, input.dt_us as int);
                    (sel, h, n, false)
                } else {
                    (sel, hold, nudge, false)
                }
            } else if input.on_right_arrow@[i] {
                if input.mouse_down {
                    let (h, n) = arrow_hold(hold, nudge, 1, input.dt_us as int);
                    (sel, h, n, false)
                } else {
                    (sel, hold, nudge, false)
                }
            } else {
                (sel, hold, nudge, false)
            }
        } else {
            (sel, hold, nudge, input.on_back_label && input.mouse_pressed)
        }
    }
}

/// The mouse on the first `k` rows, in order.
pub open spec fn mouse_pass(acc: (int, int, int, bool), input: OptionsInput, k: int) -> (
    int,
    int,
    int,
    bool,
)
    decreases k,
{
    if k <= 0 {
        acc
    } else {
        mouse_row(mouse_pass(acc, input, k - 1), k - 1, input)
    }
}

impl OptionsState {
    pub open spec fn wf(&self) -> bool {
        &&& self.selected_index < OPTIONS_ROWS
        &&& self.key_hold_timer >= 0
    }

    /// Selection after the arrow keys of a frame.
    pub open spec fn navigated(sel: int, input: OptionsInput) -> int {
        let a = if input.nav_down {
            next_index(sel, OPTIONS_ROWS as int)
        } else {
            sel
        };
        if input.nav_up {
            prev_index(a, OPTIONS_ROWS as int)
        } else {
            a
        }
    }

    /// The frame's outcome as a spec: the state after it and the action.
    pub open spec fn stepped(self, input: OptionsInput) -> (OptionsState, OptionsAction) {
        let sel = Self::navigated(self.selected_index as int, input);
        let (hold, key_step) = key_adjust(self.key_hold_timer as int, input);
        let (sel2, hold2, mouse_step, back) = mouse_pass((sel, hold, 0, false), input, 4);
        if back {
            (
                OptionsState {
                    selected_index: sel2 as usize,
                    key_hold_timer: hold2 as i64,
                    ..self
                },
                OptionsAction::Back(self.master_volume, self.sfx_volume, self.music_volume),
            )
        } else {
            let step = if mouse_step != 0 {
                mouse_step
            } else {
                key_step
            };
            let master = if step != 0 && sel2 == 0 {
                nudged(self.master_volume as int, step)
            } else {
                self.master_volume as int
            };
            let sfx = if step != 0 && sel2 == 1 {
                nudged(self.sfx_volume as int, step)
            } else {
                self.sfx_volume as int
            };
            let music = if step != 0 && sel2 == 2 {
                nudged(self.music_volume as int, step)
            } else {
                self.music_volume as int
            };
            let next = OptionsState {
                selected_index: sel2 as usize,
                master_volume: master as u32,
                sfx_volume: sfx as u32,
                music_volume: music as u32,
                key_hold_timer: hold2 as i64,
            };
            let leave = (input.confirm && sel2 == BACK_ROW) || input.escape;
            (
                next,
                if leave {
                    OptionsAction::Back(master as u32, sfx as u32, music as u32)
                } else {
                    OptionsAction::Idle
                },
            )
        }
    }

    pub fn new(current_master: u32, current_sfx: u32, current_music: u32) -> (o: Self)
        ensures
            o.wf(),
            o.selected_index == 0,
            o.master_volume == current_master,
            o.sfx_volume == current_sfx,
            o.music_volume == current_music,
            o.key_hold_timer == 0,
    {
        OptionsState {
            selected_index: 0,
            master_volume: current_master,
            sfx_volume: current_sfx,
            music_volume: current_music,
            key_hold_timer: 0,
        }
    }

    /// One frame of the options screen: arrows move the selection
    /// (wrapping); left/right keys adjust the selected slider by one percent
    /// per press, repeating after a quarter second of hold; the mouse
    /// selects the row it hovers, adjusts with the held slider arrows and
    /// leaves with a click on BACK; confirm on BACK or Escape leaves with the
    /// volumes.
    pub fn update(&mut self, input: &OptionsInput) -> (action: OptionsAction)
        requires
            old(self).wf(),
            0 <= input.dt_us,
        ensures
            final(self).wf(),
            (*final(self), action) == old(self).stepped(*input),
    {
        if input.nav_down {
            self.selected_index = wrap_next(self.selected_index, OPTIONS_ROWS);
        }
        if input.nav_up {
            self.selected_index = wrap_prev(self.selected_index, OPTIONS_ROWS);
        }
        let dt = input.dt_us;
        let mut step: i32 = 0;
        if input.move_left_down {
            if input.nav_left_pressed {
                step = -1;
                self.key_hold_timer = 0;
            } else {
                self.key_hold_timer = hold_longer(self.key_hold_timer, dt);
                if self.key_hold_timer > KEY_REPEAT_DELAY_US {
                    step = -1;
                }
            }
        } else if input.move_right_down {
            if input.nav_right_pressed {
                step = 1;
                self.key_hold_timer = 0;
            } else {
                self.key_hold_timer = hold_longer(self.key_hold_timer, dt);
                if self.key_hold_timer > KEY_REPEAT_DELAY_US {
                    step = 1;
                }
            }
        } else {
            self.key_hold_timer = 0;
        }
        let ghost start = (self.selected_index as int, self.key_hold_timer as int, 0int, false);
        let mut mouse_step: i32 = 0;
        let mut i: usize = 0;
        while i < OPTIONS_ROWS
            invariant
                0 <= i <= OPTIONS_ROWS,
                self.selected_index < OPTIONS_ROWS,
                self.key_hold_timer >= 0,
                -1 <= mouse_step <= 1,
                -1 <= step <= 1,
                self.master_volume == old(self).master_volume,
                self.sfx_volume == old(self).sfx_volume,
                self.music_volume == old(self).music_volume,
                0 <= dt,
                dt == input.dt_us,
                start == (
                    Self::navigated(old(self).selected_index as int, *input),
                    key_adjust(old(self).key_hold_timer as int, *input).0,
                    0int,
                    false,
                ),
                step as int == key_adjust(old(self).key_hold_timer as int, *input).1,
                mouse_pass(start, *input, i as int) == (
                    self.selected_index as int,
                    self.key_hold_timer as int,
                    mouse_step as int,
                    false,
                ),
            decreases OPTIONS_ROWS - i,
        {
            if input.row_hovered[i] {
                self.selected_index = i;
            }
            if self.selected_index == i {
                if i < BACK_ROW {
                    if input.on_left_arrow[i] {
                        if input.mouse_down {
                            if self.key_hold_timer == 0 {
                                mouse_step = -1;
                            }
                            self.key_hold_timer = hold_longer(self.key_hold_timer, dt);
                            if self.key_hold_timer > KEY_REPEAT_DELAY_US {
                                mouse_step = -1;
                            }
                        }
                    } else if input.on_right_arrow[i] {
                        if input.mouse_down {
                            if self.key_hold_timer == 0 {
                                mouse_step = 1;
                            }
                            self.key_hold_timer = hold_longer(self.key_hold_timer, dt);
                            if self.key_hold_timer > KEY_REPEAT_DELAY_US {
                                mouse_step = 1;
                            }
                        }
                    }
                } else if input.on_back_label && input.mouse_pressed {
                    proof {
                        assert(mouse_pass(start, *input, i as int + 1) == (
                            self.selected_index as int,
                            self.key_hold_timer as int,
                            mouse_step as int,
                            true,
                        ));
                        assert(i == 3);
                    }
                    return OptionsAction::Back(
                        self.master_volume,
                        self.sfx_volume,
                        self.music_volume,
                    );
                }
            }
            i = i + 1;
        }
        if mouse_step != 0 {
            step = mouse_step;
        }
        if step != 0 {
            match self.selected_index {
                0 => {
                    self.master_volume = nudge_volume(self.master_volume, step);
                },
                1 => {
                    self.sfx_volume = nudge_volume(self.sfx_volume, step);
                },
                2 => {
                    self.music_volume = nudge_volume(self.music_volume, step);
                },
                _ => {},
            }
        }
        if (input.confirm && self.selected_index == BACK_ROW) || input.escape {
            return OptionsAction::Back(self.master_volume, self.sfx_volume, self.music_volume);
        }
        OptionsAction::Idle
    }
}

/// A hold timer after `dt` more microseconds, stopping at the largest value
/// an `i64` holds.
pub fn hold_longer(hold: i64, dt: i64) -> (h: i64)
    requires
        hold >= 0,
        dt >= 0,
    ensures
        h == held_longer(hold as int, dt as int),
{
    if hold > i64::MAX - dt {
        i64::MAX
    } else {
        hold + dt
    }
}

/// Moves a volume by `step` percent, kept within 0..=100.
pub fn nudge_volume(volume: u32, step: i32) -> (v: u32)
    requires
        -1 <= step <= 1,
    ensures
        v == nudged(volume as int, step as int),
{
    let t = volume as i64 + step as i64;
    if t < 0 {
        0
    } else if t > VOLUME_MAX as i64 {
        VOLUME_MAX
    } else {
        t as u32
    }
}

/// A slider adjustment always leaves the volume within 0..=100, and moves
/// it by exactly one step when there is room.
pub proof fn lemma_nudged_in_range(volume: int, step: int)
    requires
        -1 <= step <= 1,
    ensures
        0 <= nudged(volume, step) <= VOLUME_MAX,
        0 <= volume + step <= VOLUME_MAX ==> nudged(volume, step) == volume + step,
{
}

/// The mouse pass keeps the selection on a row of the screen and its
/// slider step within one percent either way.
proof fn lemma_mouse_pass_bounds(acc: (int, int, int, bool), input: OptionsInput, k: int)
    requires
        0 <= acc.0 < OPTIONS_ROWS,
        -1 <= acc.2 <= 1,
        0 <= k <= OPTIONS_ROWS,
    ensures
        0 <= mouse_pass(acc, input, k).0 < OPTIONS_ROWS,
        -1 <= mouse_pass(acc, input, k).2 <= 1,
    decreases k,
{
    if k > 0 {
        lemma_mouse_pass_bounds(acc, input, k - 1);
    }
}

/// The options screen keeps the volumes within 0..=100, and a frame moves
/// at most one of them, by at most one percent: the slider of the row left
/// selected (master, sound effects or music), never when BACK is selected.
pub proof fn lemma_options_volumes(st: OptionsState, input: OptionsInput)
    requires
        st.wf(),
        st.master_volume <= VOLUME_MAX,
        st.sfx_volume <= VOLUME_MAX,
        st.music_volume <= VOLUME_MAX,
    ensures
        ({
            let next = st.stepped(input).0;
            &&& next.master_volume <= VOLUME_MAX
            &&& next.sfx_volume <= VOLUME_MAX
            &&& next.music_volume <= VOLUME_MAX
            &&& next.master_volume != st.master_volume ==> next.selected_index == 0
                && -1 <= next.master_volume - st.master_volume <= 1
            &&& next.sfx_volume != st.sfx_volume ==> next.selected_index == 1
                && -1 <= next.sfx_volume - st.sfx_volume <= 1
            &&& next.music_volume != st.music_volume ==> next.selected_index == 2
                && -1 <= next.music_volume - st.music_volume <= 1
        }),
{
    let sel = OptionsState::navigated(st.selected_index as int, input);
    let (hold, key_step) = key_adjust(st.key_hold_timer as int, input);
    lemma_mouse_pass_bounds((sel, hold, 0, false), input, 4);
}

/// Leaving the options carries the volumes the screen holds after the
/// frame: whatever leads to BACK, the volumes handed back are the state's
/// current ones.
pub proof fn lemma_back_carries_volumes(st: OptionsState, input: OptionsInput)
    requires
        st.wf(),
    ensures
        ({
            let (next, action) = st.stepped(input);
            action is Back ==> action == OptionsAction::Back(
                next.master_volume,
                next.sfx_volume,
                next.music_volume,
            )
        }),
{
    let sel = OptionsState::navigated(st.selected_index as int, input);
    let (hold, key_step) = key_adjust(st.key_hold_timer as int, input);
    lemma_mouse_pass_bounds((sel, hold, 0, false), input, 4);
}

/// The volume of slider row `row` (0 master, 1 sound effects, 2 music).
pub open spec fn slider_volume(st: OptionsState, row: int) -> int {
    if row == 0 {
        st.master_volume as int
    } else if row == 1 {
        st.sfx_volume as int
    } else {
        st.music_volume as int
    }
}

/// Holding the mouse button on a slider's `<` arrow lowers that slider by
/// one percent (not below 0), and on its `>` arrow raises it by one percent
/// (not above 100), while no arrow key is held: the pointer is on row `row`
/// and on no other row, and on no other arrow.
pub proof fn lemma_mouse_arrows(st: OptionsState, input: OptionsInput, row: int, lower: bool)
    requires
        st.wf(),
        0 <= row < 3,
        slider_volume(st, row) <= VOLUME_MAX,
        input.mouse_down,
        !input.move_left_down,
        !input.move_right_down,
        forall|j: int| 0 <= j < 4 ==> (input.row_hovered@[j] <==> j == row),
        forall|j: int|
            0 <= j < 3 ==> (input.on_left_arrow@[j] <==> (j == row && lower)),
        forall|j: int|
            0 <= j < 3 ==> (input.on_right_arrow@[j] <==> (j == row && !lower)),
    ensures
        st.stepped(input).0.selected_index == row,
        lower ==> slider_volume(st.stepped(input).0, row) == if slider_volume(st, row) > 0 {
            slider_volume(st, row) - 1
        } else {
            0
        },
        !lower ==> slider_volume(st.stepped(input).0, row) == if slider_volume(st, row) < 100 {
            slider_volume(st, row) + 1
        } else {
            100
        },
{
    reveal_with_fuel(mouse_pass, 5);
    let sel = OptionsState::navigated(st.selected_index as int, input);
    let (hold, key_step) = key_adjust(st.key_hold_timer as int, input);
    assert(hold == 0 && key_step == 0);
    lemma_mouse_pass_bounds((sel, hold, 0, false), input, 4);
    assert(input.row_hovered@[row]);
    assert(input.on_left_arrow@[row] == lower);
    assert(input.on_right_arrow@[row] == !lower);
    let a0 = (sel, hold, 0int, false);
    let a1 = mouse_row(a0, 0, input);
    let a2 = mouse_row(a1, 1, input);
    let a3 = mouse_row(a2, 2, input);
    let a4 = mouse_row(a3, 3, input);
    assert(mouse_pass(a0, input, 4) == a4);
    if row == 0 {
        assert(a1.0 == 0 && a1.2 == if lower { -1int } else { 1 });
    } else if row == 1 {
        assert(!input.row_hovered@[0] && !input.on_left_arrow@[0] && !input.on_right_arrow@[0]);
        assert(a1.2 == 0 && !a1.3);
        assert(a2.0 == 1 && a2.2 == if lower { -1int } else { 1 });
    } else {
        assert(!input.row_hovered@[0] && !input.on_left_arrow@[0] && !input.on_right_arrow@[0]);
        assert(!input.row_hovered@[1] && !input.on_left_arrow@[1] && !input.on_right_arrow@[1]);
        assert(a1.2 == 0 && !a1.3);
        assert(a2.2 == 0 && !a2.3);
        assert(a3.0 == 2 && a3.2 == if lower { -1int } else { 1 });
    }
    assert(!input.row_hovered@[3]);
    assert(a4.0 == row && !a4.3);
}

/// The left and right keys move the selected slider down or up by one
/// percent on a fresh press (within 0..=100), when the mouse is idle and no
/// arrow key moves the selection; the left key wins when both are held.
pub proof fn lemma_arrow_keys(st: OptionsState, input: OptionsInput)
    requires
        st.wf(),
        st.selected_index < 3,
        slider_volume(st, st.selected_index as int) <= VOLUME_MAX,
        !input.mouse_down,
        !input.nav_down,
        !input.nav_up,
        forall|j: int| 0 <= j < 4 ==> !input.row_hovered@[j],
        (input.move_left_down && input.nav_left_pressed) || (!input.move_left_down
            && input.move_right_down && input.nav_right_pressed),
    ensures
        ({
            let row = st.selected_index as int;
            let v = slider_volume(st, row);
            let next = st.stepped(input).0;
            &&& next.selected_index == st.selected_index
            &&& input.move_left_down ==> slider_volume(next, row) == if v > 0 {
                v - 1
            } else {
                0
            }
            &&& !input.move_left_down ==> slider_volume(next, row) == if v < 100 {
                v + 1
            } else {
                100
            }
        }),
{
    reveal_with_fuel(mouse_pass, 5);
    let sel = OptionsState::navigated(st.selected_index as int, input);
    assert(sel == st.selected_index);
    let (hold, key_step) = key_adjust(st.key_hold_timer as int, input);
    let a0 = (sel, hold, 0int, false);
    assert(!input.row_hovered@[0] && !input.row_hovered@[1]);
    assert(!input.row_hovered@[2] && !input.row_hovered@[3]);
    let a1 = mouse_row(a0, 0, input);
    let a2 = mouse_row(a1, 1, input);
    let a3 = mouse_row(a2, 2, input);
    let a4 = mouse_row(a3, 3, input);
    assert(mouse_pass(a0, input, 4) == a4);
    assert(a4 == a0);
}

} // verus!
