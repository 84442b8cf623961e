use crate::constants::{WINDOW_HEIGHT, WINDOW_WIDTH};
use vstd::prelude::*;

verus! {

/// What the window should do after a frame.
#[derive(Clone, Copy, Debug, PartialEq, Eq, Structural)]
pub enum WindowCommand {
    Keep,
    /// Switch to fullscreen.
    Fullscreen,
    /// Leave fullscreen and ask for a window of this size.
    Windowed { width: i32, height: i32 },
}

/// Tracks whether the game runs fullscreen.
#[derive(Clone, Copy, Debug)]
pub struct WindowManager {
    pub is_fullscreen: bool,
}

impl WindowManager {
    /// Tracks the mode the window was configured to start in.
    pub fn new(fullscreen: bool) -> (w: Self)
        ensures
            w.is_fullscreen == fullscreen,
    {
        WindowManager { is_fullscreen: fullscreen }
    }

    /// Alt+Enter toggles fullscreen; leaving it asks for the full
    /// 2560x1440 window.
    pub fn update(&mut self, alt_down: bool, enter_pressed: bool) -> (cmd: WindowCommand)
        ensures
            alt_down && enter_pressed ==> final(self).is_fullscreen == !old(self).is_fullscreen
                && cmd == if final(self).is_fullscreen {
                WindowCommand::Fullscreen
            } else {
                WindowCommand::Windowed { width: WINDOW_WIDTH, height: WINDOW_HEIGHT }
            },
            !(alt_down && enter_pressed) ==> final(self).is_fullscreen == old(self).is_fullscreen
                && cmd == WindowCommand::Keep,
    {
        if alt_down && enter_pressed {
            self.toggle()
        } else {
            WindowCommand::Keep
        }
    }

    fn toggle(&mut self) -> (cmd: WindowCommand)
        ensures
            final(self).is_fullscreen == !old(self).is_fullscreen,
            cmd == if final(self).is_fullscreen {
                WindowCommand::Fullscreen
            } else {
                WindowCommand::Windowed { width: WINDOW_WIDTH, height: WINDOW_HEIGHT }
            },
    {
        self.is_fullscreen = !self.is_fullscreen;
        if self.is_fullscreen {
            WindowCommand::Fullscreen
        } else {
            WindowCommand::Windowed { width: WINDOW_WIDTH, height: WINDOW_HEIGHT }
        }
    }
}

} // verus!
