# rustoblast

The rules of RUSTOBLAST SMASH, a vector-art arcade shooter, as a verified
library, with the game program around it.

- `src/` — the rules, proved with Verus: the spawn table and its rock-led mix
  (`spawn`), enemy and power-up kinds (`enemy`, `powerup`), the ship's shot
  timing, shields, timers and sidekick formation (`player`, `sidekick`), the
  frame-by-frame rules of play — respawns, spawn ticks and poly waves,
  landing penalties, kill scores, hits, warning loops (`game`), the menu
  screens (`menu`, `pause`, `options`, `game_over`), fullscreen toggling
  (`windowing`) and the music playlist (`playlist`). Timers count whole
  microseconds, volumes whole percents, spawn samples hundredths of a percent.
  Random draws come from macroquad's generator (`random`).
- `tests/` — the library's tests.
- `app/` — the program: window, input polling, floating-point motion and
  collisions, drawing, audio and the save file, asking the library what to do
  at every step.
