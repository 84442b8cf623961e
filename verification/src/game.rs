use crate::constants::{
    DEATH_DELAY_US, NOTICE_US, POLY_WAVE_COUNT, POLY_WAVE_STAGGER_US,
    RESPAWN_INVINCIBILITY_US, ROLL_SCALE, SECOND_US, START_LIVES,
};
use crate::enemy::{
    is_spinner_kind, kill_points_of, landing_is_deadly, landing_penalty_of, EnemyType,
};
use crate::player::{tick_down, Player};
use crate::random::random_roll;
use crate::spawn::{lemma_spawn_table, roll_band, roll_spawn, spawn_kind_for, SpawnKind};
use vstd::prelude::*;

verus! {

/// What a frame of play asks of the scene manager.
#[derive(Clone, Copy, Debug, PartialEq, Eq, Structural)]
pub enum GameAction {
    Idle,
    Pause,
    Options,
    GameOver,
}

/// Background tint of a score band.
#[derive(Clone, Copy, Debug, PartialEq, Eq, Structural)]
pub enum Backdrop {
    Black,
    DarkBlue,
    DarkPurple,
    DarkTurquoise,
    Gray,
}

/// How the start of a frame went.
#[derive(Clone, Copy, Debug, PartialEq, Eq, Structural)]
pub enum FrameStart {
    /// The pause key was pressed: nothing else happens this frame.
    Pause,
    /// The options key was pressed: nothing else happens this frame.
    Options,
    /// The wreck's time ran out with no life left.
    GameOver,
    /// The wreck's time ran out: the ship is back at the start position.
    Respawned,
    /// The wreck is still on screen.
    Dead,
    /// The ship flies: it moves and may fire this frame.
    Alive,
}

/// What a threat did to the player.
#[derive(Clone, Copy, Debug, PartialEq, Eq, Structural)]
pub enum HitOutcome {
    /// Nothing happened (no threat, or invincibility).
    Unaffected,
    /// A running shield took it.
    Absorbed,
    /// A life was lost and the wreck is shown.
    Died,
    /// No life was left to lose.
    GameOver,
}

/// What to do with a looping warning sound.
#[derive(Clone, Copy, Debug, PartialEq, Eq, Structural)]
pub enum LoopCue {
    Keep,
    Start,
    Stop,
}

/// One flag per looping warning sound (UFO, guided missile, big spinner,
/// small spinner).
#[derive(Clone, Copy, Debug, PartialEq, Eq, Structural)]
pub struct LoopFlags {
    pub ufo: bool,
    pub missile: bool,
    pub big_spinner: bool,
    pub small_spinner: bool,
}

/// One cue per looping warning sound.
#[derive(Clone, Copy, Debug, PartialEq, Eq, Structural)]
pub struct LoopCues {
    pub ufo: LoopCue,
    pub missile: LoopCue,
    pub big_spinner: LoopCue,
    pub small_spinner: LoopCue,
}

/// Keys and clock of one frame of play.
#[derive(Clone, Copy, Debug)]
pub struct FrameInput {
    pub pause_pressed: bool,
    pub options_pressed: bool,
    /// Length of the frame in microseconds.
    pub dt_us: i64,
}

/// The rules-side state of a game in progress. Volumes are whole
/// percentages, timers microseconds.
#[derive(Clone, Debug)]
pub struct GameState {
    pub score: i32,
    pub lives: i32,
    pub player: Player,
    pub player_dead: bool,
    pub dead_timer: i64,
    pub spawn_timer: i64,
    pub master_volume: u32,
    pub sfx_volume: u32,
    pub music_volume: u32,
    pub load_notification_timer: i64,
    pub mod_poly_wave_remaining: i32,
    pub ufo_sound_active: bool,
    pub missile_sound_active: bool,
    pub big_spinner_sound_active: bool,
    pub small_spinner_sound_active: bool,
}

/// The score multiplier: 1 up to 1,000 points, then 2, 3, 4, 5 above
/// 1,000, 5,000, 20,000 and 50,000, and 6 above 100,000.
pub open spec fn multiplier_of(score: int) -> int {
    if score > 100_000 {
        6
    } else if score > 50_000 {
        5
    } else if score > 20_000 {
        4
    } else if score > 5_000 {
        3
    } else if score > 1_000 {
        2
    } else {
        1
    }
}

/// The background of each score band.
pub open spec fn backdrop_of(score: int) -> Backdrop {
    if score > 100_000 {
        Backdrop::Black
    } else if score > 50_000 {
        Backdrop::Gray
    } else if score > 20_000 {
        Backdrop::DarkTurquoise
    } else if score > 5_000 {
        Backdrop::DarkPurple
    } else if score > 1_000 {
        Backdrop::DarkBlue
    } else {
        Backdrop::Black
    }
}

/// Sum of the base kill points of a list of enemies.
pub open spec fn points_sum(kinds: Seq<EnemyType>) -> int
    decreases kinds.len(),
{
    if kinds.len() == 0 {
        0
    } else {
        points_sum(kinds.drop_last()) + kill_points_of(kinds.last())
    }
}

/// Sum of the base landing penalties of a list of enemies.
pub open spec fn penalty_sum(kinds: Seq<EnemyType>) -> int
    decreases kinds.len(),
{
    if kinds.len() == 0 {
        0
    } else {
        penalty_sum(kinds.drop_last()) + landing_penalty_of(kinds.last())
    }
}

/// Score with a change applied, never below zero.
pub open spec fn clamped_score(score: int, delta: int) -> int {
    if score + delta > 0 {
        score + delta
    } else {
        0
    }
}

/// Whether a spawn tick is due: the spawn timer has passed the spawn
/// interval `20 / (19 + multiplier)` seconds.
pub open spec fn spawn_due(timer_us: int, multiplier: int) -> bool {
    timer_us * (19 + multiplier) > 20 * SECOND_US
}

/// The enemy a spawn kind puts on the field; a poly wave puts none at once.
pub open spec fn enemy_of_spawn(kind: SpawnKind) -> Option<EnemyType> {
    match kind {
        SpawnKind::BigRock => Some(EnemyType::BigRock),
        SpawnKind::SmallSpinner => Some(EnemyType::SmallSpinner),
        SpawnKind::BigSpinner => Some(EnemyType::BigSpinner),
        SpawnKind::GuidedMissile => Some(EnemyType::GuidedMissile),
        SpawnKind::Ufo => Some(EnemyType::UFO),
        SpawnKind::PolyWave => None,
    }
}

/// One transition of a looping warning sound: it starts when its enemy is
/// present and the sound exists, and stops when no such enemy is left.
pub open spec fn loop_step(active: bool, present: bool, available: bool) -> (bool, LoopCue) {
    if present {
        if active {
            (true, LoopCue::Keep)
        } else if available {
            (true, LoopCue::Start)
        } else {
            (false, LoopCue::Keep)
        }
    } else if active {
        (false, if available { LoopCue::Stop } else { LoopCue::Keep })
    } else {
        (false, LoopCue::Keep)
    }
}

/// Direction of the star drift: +1 (rightwards) in even 10,000-point bands
/// and -1 in odd ones, the band being the score divided by 10,000 and
/// rounded towards zero.
pub open spec fn star_direction_of(score: int) -> int {
    let band = if score >= 0 {
        score / 10_000
    } else {
        -((-score) / 10_000)
    };
    if band % 2 == 0 {
        1
    } else {
        -1
    }
}

/// The spawn timer plus a frame, scaled by the interval's denominator,
/// fits an `i128`; a timer that is not yet due is under a second.
proof fn lemma_spawn_product_bounds(timer: int, den: int)
    requires
        i64::MIN <= timer <= 2 * (i64::MAX as int),
        20 <= den <= 25,
    ensures
        25 * (i64::MIN as int) <= timer * den <= 50 * (i64::MAX as int),
        timer * den <= 20 * SECOND_US ==> timer <= SECOND_US,
{
    assert(25 * (i64::MIN as int) <= timer * den <= 50 * (i64::MAX as int)) by (nonlinear_arith)
        requires
            i64::MIN <= timer <= 2 * (i64::MAX as int),
            20 <= den <= 25,
    ;
    assert(timer * den <= 20 * SECOND_US ==> timer <= SECOND_US) by (nonlinear_arith)
        requires
            20 <= den <= 25,
    ;
}

proof fn lemma_sums_nonneg(kinds: Seq<EnemyType>)
    ensures
        0 <= points_sum(kinds),
        0 <= penalty_sum(kinds),
    decreases kinds.len(),
{
    if kinds.len() > 0 {
        lemma_sums_nonneg(kinds.drop_last());
    }
}

proof fn lemma_sums_prefix(kinds: Seq<EnemyType>, i: int, j: int)
    requires
        0 <= i <= j <= kinds.len(),
    ensures
        0 <= points_sum(kinds.take(i)) <= points_sum(kinds.take(j)),
        0 <= penalty_sum(kinds.take(i)) <= penalty_sum(kinds.take(j)),
    decreases j - i,
{
    lemma_sums_nonneg(kinds.take(i));
    if i < j {
        lemma_sums_prefix(kinds, i, j - 1);
        assert(kinds.take(j).drop_last() =~= kinds.take(j - 1));
    }
}

proof fn lemma_sum_step(kinds: Seq<EnemyType>, i: int)
    requires
        0 <= i < kinds.len(),
    ensures
        points_sum(kinds.take(i + 1)) == points_sum(kinds.take(i)) + kill_points_of(kinds[i]),
        penalty_sum(kinds.take(i + 1)) == penalty_sum(kinds.take(i)) + landing_penalty_of(
            kinds[i],
        ),
{
    assert(kinds.take(i + 1).drop_last() =~= kinds.take(i));
}

proof fn lemma_scaled_between(m: int, a: int, b: int)
    requires
        0 <= a <= b,
    ensures
        m >= 0 ==> 0 <= m * a <= m * b,
        m < 0 ==> m * b <= m * a <= 0,
{
    assert(m >= 0 ==> 0 <= m * a <= m * b) by (nonlinear_arith)
        requires
            0 <= a <= b,
    ;
    assert(m < 0 ==> m * b <= m * a <= 0) by (nonlinear_arith)
        requires
            0 <= a <= b,
    ;
}

impl GameState {
    /// Validity: a valid ship, and a wreck only while its time runs.
    pub open spec fn wf(&self) -> bool {
        &&& self.player.wf()
        &&& self.player_dead ==> self.dead_timer > 0
    }

    /// The state with the spawn step of `dt` microseconds applied, given the
    /// two spawn samples, and the enemy it puts on the field.
    pub open spec fn spawn_outcome(self, dt: int, roll: int, wave_roll: int) -> (
        GameState,
        Option<EnemyType>,
    ) {
        let m = multiplier_of(self.score as int);
        let timer = self.spawn_timer + dt;
        if !spawn_due(timer, m) {
            (GameState { spawn_timer: timer as i64, ..self }, None)
        } else if self.mod_poly_wave_remaining > 0 {
            (
                GameState {
                    spawn_timer: (20 * SECOND_US / (19 + m) - POLY_WAVE_STAGGER_US) as i64,
                    mod_poly_wave_remaining: (self.mod_poly_wave_remaining - 1) as i32,
                    ..self
                },
                Some(EnemyType::PolySnake),
            )
        } else {
            let kind = spawn_kind_for(self.score as int, roll, wave_roll);
            if kind == SpawnKind::PolyWave {
                (
                    GameState {
                        spawn_timer: 0,
                        mod_poly_wave_remaining: POLY_WAVE_COUNT,
                        ..self
                    },
                    None,
                )
            } else {
                (GameState { spawn_timer: 0, ..self }, enemy_of_spawn(kind))
            }
        }
    }

    /// The landing step as a spec: the score after the rock penalties of
    /// `landed`, and a life lost for a deadly landing unless a shield runs.
    pub open spec fn landing_result(self, landed: Seq<EnemyType>) -> (GameState, HitOutcome) {
        let scored = GameState {
            score: clamped_score(
                self.score as int,
                -(multiplier_of(self.score as int) * penalty_sum(landed)),
            ) as i32,
            ..self
        };
        if !Self::deadly_landing(landed) {
            (scored, HitOutcome::Unaffected)
        } else if self.player.is_shielded {
            (scored, HitOutcome::Absorbed)
        } else if self.lives > 0 {
            (scored.after_death(), HitOutcome::Died)
        } else {
            (scored, HitOutcome::GameOver)
        }
    }

    /// The scoring step as a spec: the kills of `killed` at `multiplier`.
    pub open spec fn kills_result(self, killed: Seq<EnemyType>, multiplier: int) -> GameState {
        GameState {
            score: clamped_score(self.score as int, multiplier * points_sum(killed)) as i32,
            ..self
        }
    }

    /// The contact step as a spec: a wreck cannot be hit; otherwise
    /// invincibility ignores the hit, a shield absorbs it, and the ship
    /// loses a life, the game ending when none is left.
    pub open spec fn hit_result(self) -> (GameState, HitOutcome) {
        if self.player_dead || self.player.invincible_timer > 0 {
            (self, HitOutcome::Unaffected)
        } else if self.player.is_shielded {
            (self, HitOutcome::Absorbed)
        } else if self.lives > 0 {
            (self.after_death(), HitOutcome::Died)
        } else {
            (self, HitOutcome::GameOver)
        }
    }

    /// The state after the player loses a life: the wreck is shown for the
    /// death delay.
    pub open spec fn after_death(self) -> GameState {
        GameState {
            lives: (self.lives - 1) as i32,
            player_dead: true,
            dead_timer: DEATH_DELAY_US,
            ..self
        }
    }

    /// A new game at `start_score`: ten lives, a fresh ship, and the given
    /// volumes.
    pub fn new(start_score: i32, master_volume: u32, sfx_volume: u32, music_volume: u32) -> (g:
        Self)
        ensures
            g.wf(),
            g.score == start_score,
            g.lives == START_LIVES,
            g.player.is_fresh(),
            !g.player_dead,
            g.dead_timer == 0,
            g.spawn_timer == 0,
            g.master_volume == master_volume,
            g.sfx_volume == sfx_volume,
            g.music_volume == music_volume,
            g.load_notification_timer == 0,
            g.mod_poly_wave_remaining == 0,
            !g.ufo_sound_active,
            !g.missile_sound_active,
            !g.big_spinner_sound_active,
            !g.small_spinner_sound_active,
    {
        GameState {
            score: start_score,
            lives: START_LIVES,
            player: Player::new(),
            player_dead: false,
            dead_timer: 0,
            spawn_timer: 0,
            master_volume,
            sfx_volume,
            music_volume,
            load_notification_timer: 0,
            mod_poly_wave_remaining: 0,
            ufo_sound_active: false,
            missile_sound_active: false,
            big_spinner_sound_active: false,
            small_spinner_sound_active: false,
        }
    }

    /// The score multiplier and background of the current score band.
    pub fn get_multiplier_and_bg(&self) -> (r: (i32, Backdrop))
        ensures
            r.0 == multiplier_of(self.score as int),
            r.1 == backdrop_of(self.score as int),
    {
        if self.score > 100_000 {
            (6, Backdrop::Black)
        } else if self.score > 50_000 {
            (5, Backdrop::Gray)
        } else if self.score > 20_000 {
            (4, Backdrop::DarkTurquoise)
        } else if self.score > 5_000 {
            (3, Backdrop::DarkPurple)
        } else if self.score > 1_000 {
            (2, Backdrop::DarkBlue)
        } else {
            (1, Backdrop::Black)
        }
    }

    /// Starts a frame: the pause and options keys leave play at once; a
    /// wreck's time runs down and the ship respawns with three seconds of
    /// invincibility when it is over (the game ends there if no life is
    /// left); a flying ship runs its timers and the load notice fades.
    pub fn begin_frame(&mut self, input: &FrameInput) -> (start: FrameStart)
        requires
            old(self).wf(),
            0 <= input.dt_us,
        ensures
            final(self).wf(),
            input.pause_pressed ==> start == FrameStart::Pause && *final(self) == *old(self),
            !input.pause_pressed && input.options_pressed ==> start == FrameStart::Options
                && *final(self) == *old(self),
            !input.pause_pressed && !input.options_pressed && old(self).player_dead
                && old(self).dead_timer - input.dt_us <= 0 ==> *final(self) == (GameState {
                player_dead: false,
                dead_timer: (old(self).dead_timer - input.dt_us) as i64,
                player: Player { invincible_timer: RESPAWN_INVINCIBILITY_US, ..old(self).player },
                ..*old(self)
            }) && start == (if old(self).lives <= 0 {
                FrameStart::GameOver
            } else {
                FrameStart::Respawned
            }),
            !input.pause_pressed && !input.options_pressed && old(self).player_dead
                && old(self).dead_timer - input.dt_us > 0 ==> *final(self) == (GameState {
                dead_timer: (old(self).dead_timer - input.dt_us) as i64,
                ..*old(self)
            }) && start == FrameStart::Dead,
            !input.pause_pressed && !input.options_pressed && !old(self).player_dead ==> start
                == FrameStart::Alive && *final(self) == (GameState {
                load_notification_timer: tick_down(
                    old(self).load_notification_timer as int,
                    input.dt_us as int,
                ) as i64,
                player: old(self).player.ticked(input.dt_us as int),
                ..*old(self)
            }),
    {
        if input.pause_pressed {
            return FrameStart::Pause;
        }
        if input.options_pressed {
            return FrameStart::Options;
        }
        let dt = input.dt_us;
        if self.player_dead {
            self.dead_timer = self.dead_timer - dt;
            if self.dead_timer <= 0 {
                self.player_dead = false;
                self.player.invincible_timer = RESPAWN_INVINCIBILITY_US;
                if self.lives <= 0 {
                    return FrameStart::GameOver;
                }
                return FrameStart::Respawned;
            }
            FrameStart::Dead
        } else {
            if self.load_notification_timer > 0 {
                self.load_notification_timer = self.load_notification_timer - dt;
            }
            self.player.update(dt);
            FrameStart::Alive
        }
    }

    /// Whether the spawn step of `dt_us` microseconds will consult the spawn
    /// table: a tick is due and no poly wave is pending.
    pub open spec fn spawn_needs_roll(self, dt: int) -> bool {
        spawn_due(self.spawn_timer + dt, multiplier_of(self.score as int))
            && self.mod_poly_wave_remaining <= 0
    }

    /// Runs the spawn timer for `dt_us` microseconds with the given spawn
    /// samples. When a tick is due the timer restarts and a pending poly wave
    /// sends its next snake (the timer then restarts 0.2 s short of the
    /// interval); otherwise the spawn table decides, a poly wave queuing its
    /// thirteen snakes. Returns the enemy to put on the field.
    pub fn spawn_step_with_rolls(&mut self, dt_us: i64, roll: u32, wave_roll: u32) -> (spawn:
        Option<EnemyType>)
        requires
            old(self).wf(),
            0 <= dt_us,
        ensures
            final(self).wf(),
            (*final(self), spawn) == old(self).spawn_outcome(
                dt_us as int,
                roll as int,
                wave_roll as int,
            ),
    {
        let (m, _) = self.get_multiplier_and_bg();
        let timer: i128 = self.spawn_timer as i128 + dt_us as i128;
        let (num, den) = crate::spawn::spawn_interval(m);
        proof {
            lemma_spawn_product_bounds(timer as int, den as int);
        }
        if timer * (den as i128) <= (num as i128) * (SECOND_US as i128) {
            self.spawn_timer = timer as i64;
            return None;
        }
        if self.mod_poly_wave_remaining > 0 {
            self.spawn_timer = num * SECOND_US / den - POLY_WAVE_STAGGER_US;
            self.mod_poly_wave_remaining = self.mod_poly_wave_remaining - 1;
            return Some(EnemyType::PolySnake);
        }
        self.spawn_timer = 0;
        match roll_spawn(self.score, roll, wave_roll) {
            SpawnKind::PolyWave => {
                self.mod_poly_wave_remaining = POLY_WAVE_COUNT;
                None
            },
            SpawnKind::Ufo => Some(EnemyType::UFO),
            SpawnKind::GuidedMissile => Some(EnemyType::GuidedMissile),
            SpawnKind::SmallSpinner => Some(EnemyType::SmallSpinner),
            SpawnKind::BigSpinner => Some(EnemyType::BigSpinner),
            SpawnKind::BigRock => Some(EnemyType::BigRock),
        }
    }

    /// The spawn step with samples drawn from the game's generator, drawn
    /// only when the spawn table is consulted.
    pub fn spawn_step(&mut self, dt_us: i64) -> (spawn: Option<EnemyType>)
        requires
            old(self).wf(),
            0 <= dt_us,
        ensures
            final(self).wf(),
            exists|roll: int, wave_roll: int|
                0 <= roll < ROLL_SCALE && 0 <= wave_roll < ROLL_SCALE && (*final(self), spawn)
                    == old(self).spawn_outcome(dt_us as int, roll, wave_roll),
    {
        let (m, _) = self.get_multiplier_and_bg();
        let (num, den) = crate::spawn::spawn_interval(m);
        let timer: i128 = self.spawn_timer as i128 + dt_us as i128;
        proof {
            lemma_spawn_product_bounds(timer as int, den as int);
        }
        let needs_roll = timer * (den as i128) > (num as i128) * (SECOND_US as i128)
            && self.mod_poly_wave_remaining <= 0;
        let (roll, wave_roll) = if needs_roll {
            let roll = random_roll();
            let wave_roll = random_roll();
            (roll, wave_roll)
        } else {
            (0, 0)
        };
        self.spawn_step_with_rolls(dt_us, roll, wave_roll)
    }

    /// Whether `kinds` holds an enemy whose landing is deadly.
    pub open spec fn deadly_landing(kinds: Seq<EnemyType>) -> bool {
        exists|i: int| 0 <= i < kinds.len() && landing_is_deadly(#[trigger] kinds[i])
    }

    /// Applies the enemies that reached the ground this frame: rocks cost
    /// points (5 for a big one, 10 for a small one, times the multiplier),
    /// the score never dropping below zero; a landed spinner or poly snake
    /// costs a life unless a shield runs, and ends the game if none is left.
    pub fn resolve_landings(&mut self, landed: &Vec<EnemyType>) -> (outcome: HitOutcome)
        requires
            old(self).wf(),
            multiplier_of(old(self).score as int) * penalty_sum(landed@) <= i32::MAX,
            old(self).score - multiplier_of(old(self).score as int) * penalty_sum(landed@)
                >= i32::MIN,
        ensures
            final(self).wf(),
            final(self).score >= 0,
            final(self).lives >= old(self).lives - 1,
            old(self).lives >= 0 ==> final(self).lives >= 0,
            old(self).player.is_shielded ==> final(self).lives == old(self).lives,
            outcome == HitOutcome::GameOver ==> old(self).lives <= 0,
            (*final(self), outcome) == old(self).landing_result(landed@),
    {
        let (m, _) = self.get_multiplier_and_bg();
        let ghost total = m * penalty_sum(landed@);
        let mut penalties: i32 = 0;
        let mut deadly = false;
        let n = landed.len();
        let mut i: usize = 0;
        while i < n
            invariant
                n == landed@.len(),
                0 <= i <= n,
                1 <= m <= 6,
                total == m * penalty_sum(landed@),
                total <= i32::MAX,
                penalties == m * penalty_sum(landed@.take(i as int)),
                deadly == exists|k: int| 0 <= k < i && landing_is_deadly(#[trigger] landed@[k]),
            decreases n - i,
        {
            let kind = landed[i];
            proof {
                let a = penalty_sum(landed@.take(i as int));
                let p = landing_penalty_of(kind);
                lemma_sum_step(landed@, i as int);
                lemma_sums_prefix(landed@, i as int, i as int + 1);
                lemma_sums_prefix(landed@, i as int + 1, n as int);
                assert(landed@.take(n as int) =~= landed@);
                lemma_scaled_between(m as int, a + p, penalty_sum(landed@));
                lemma_scaled_between(m as int, p, a + p);
                assert(m * (a + p) == m * a + m * p) by (nonlinear_arith);
            }
            penalties = penalties + m * kind.landing_penalty();
            if kind.landing_is_deadly() {
                deadly = true;
            }
            i = i + 1;
        }
        proof {
            assert(landed@.take(n as int) =~= landed@);
            lemma_sums_nonneg(landed@);
            lemma_scaled_between(m as int, 0, penalty_sum(landed@));
        }
        let lowered = self.score as i64 - penalties as i64;
        self.score = if lowered > 0 {
            lowered as i32
        } else {
            0
        };
        if !deadly {
            HitOutcome::Unaffected
        } else if self.player.is_shielded {
            HitOutcome::Absorbed
        } else if self.lives > 0 {
            self.lives = self.lives - 1;
            self.player_dead = true;
            self.dead_timer = DEATH_DELAY_US;
            HitOutcome::Died
        } else {
            HitOutcome::GameOver
        }
    }

    /// Awards the enemies shot down this frame (one entry per hit), at the
    /// multiplier of the frame: 10 for a big rock, 20 for a small rock, 40
    /// for a big spinner, 80 for a small spinner, 50 for a guided missile,
    /// 100 for a UFO, 10 for a UFO bomb and 150 for a poly snake, the score
    /// never dropping below zero.
    pub fn award_kills(&mut self, killed: &Vec<EnemyType>, multiplier: i32)
        requires
            old(self).wf(),
            i32::MIN <= multiplier * points_sum(killed@) <= i32::MAX,
            i32::MIN <= old(self).score + multiplier * points_sum(killed@) <= i32::MAX,
        ensures
            final(self).wf(),
            final(self).score >= 0,
            *final(self) == old(self).kills_result(killed@, multiplier as int),
    {
        let ghost total = multiplier * points_sum(killed@);
        let mut gained: i32 = 0;
        let n = killed.len();
        let mut i: usize = 0;
        while i < n
            invariant
                n == killed@.len(),
                0 <= i <= n,
                total == multiplier * points_sum(killed@),
                i32::MIN <= total <= i32::MAX,
                gained == multiplier * points_sum(killed@.take(i as int)),
            decreases n - i,
        {
            let kind = killed[i];
            proof {
                let a = points_sum(killed@.take(i as int));
                let p = kill_points_of(kind);
                lemma_sum_step(killed@, i as int);
                lemma_sums_prefix(killed@, i as int, i as int + 1);
                lemma_sums_prefix(killed@, i as int + 1, n as int);
                assert(killed@.take(n as int) =~= killed@);
                lemma_scaled_between(multiplier as int, a + p, points_sum(killed@));
                lemma_scaled_between(multiplier as int, p, a + p);
                assert(multiplier * (a + p) == multiplier * a + multiplier * p) by (nonlinear_arith);
            }
            gained = gained + multiplier * kind.kill_points();
            i = i + 1;
        }
        proof {
            assert(killed@.take(n as int) =~= killed@);
        }
        let raised = self.score + gained;
        self.score = if raised > 0 {
            raised
        } else {
            0
        };
    }

    /// Whether touching an enemy of `kind` harms the ship: spinners are
    /// harmless while the protection against spinners runs.
    pub fn contact_harms_player(&self, kind: EnemyType) -> (harms: bool)
        ensures
            harms == !(is_spinner_kind(kind) && self.player.spinner_invincible_timer > 0),
    {
        !(kind.is_spinner() && self.player.spinner_invincible_timer > 0)
    }

    /// The ship was hit: a wreck cannot be hit, invincibility ignores it, a
    /// running shield absorbs it, otherwise a life is lost, and with no life
    /// left the game ends.
    pub fn resolve_player_hit(&mut self) -> (outcome: HitOutcome)
        requires
            old(self).wf(),
        ensures
            final(self).wf(),
            old(self).lives >= 0 ==> final(self).lives >= 0,
            old(self).player.is_shielded ==> final(self).lives == old(self).lives,
            outcome == HitOutcome::GameOver ==> old(self).lives <= 0,
            (*final(self), outcome) == old(self).hit_result(),
    {
        if self.player_dead || self.player.invincible_timer > 0 {
            HitOutcome::Unaffected
        } else if self.player.is_shielded {
            HitOutcome::Absorbed
        } else if self.lives > 0 {
            self.lives = self.lives - 1;
            self.player_dead = true;
            self.dead_timer = DEATH_DELAY_US;
            HitOutcome::Died
        } else {
            HitOutcome::GameOver
        }
    }

    /// Keeps the looping warning sounds in step with the enemies on the
    /// field (`active` lists the kinds of the live enemies): a sound starts
    /// when its enemy shows up and the sound exists, and stops once none is
    /// left.
    pub fn update_loops(&mut self, active: &Vec<EnemyType>, available: LoopFlags) -> (cues:
        LoopCues)
        requires
            old(self).wf(),
        ensures
            final(self).wf(),
            ({
                let ufo = loop_step(
                    old(self).ufo_sound_active,
                    active@.contains(EnemyType::UFO),
                    available.ufo,
                );
                let missile = loop_step(
                    old(self).missile_sound_active,
                    active@.contains(EnemyType::GuidedMissile),
                    available.missile,
                );
                let big = loop_step(
                    old(self).big_spinner_sound_active,
                    active@.contains(EnemyType::BigSpinner),
                    available.big_spinner,
                );
                let small = loop_step(
                    old(self).small_spinner_sound_active,
                    active@.contains(EnemyType::SmallSpinner),
                    available.small_spinner,
                );
                &&& *final(self) == (GameState {
                    ufo_sound_active: ufo.0,
                    missile_sound_active: missile.0,
                    big_spinner_sound_active: big.0,
                    small_spinner_sound_active: small.0,
                    ..*old(self)
                })
                &&& cues == (LoopCues {
                    ufo: ufo.1,
                    missile: missile.1,
                    big_spinner: big.1,
                    small_spinner: small.1,
                })
            }),
    {
        let mut ufo = false;
        let mut missile = false;
        let mut big = false;
        let mut small = false;
        let n = active.len();
        let mut i: usize = 0;
        while i < n
            invariant
                n == active@.len(),
                0 <= i <= n,
                ufo == exists|k: int| 0 <= k < i && active@[k] == EnemyType::UFO,
                missile == exists|k: int| 0 <= k < i && active@[k] == EnemyType::GuidedMissile,
                big == exists|k: int| 0 <= k < i && active@[k] == EnemyType::BigSpinner,
                small == exists|k: int| 0 <= k < i && active@[k] == EnemyType::SmallSpinner,
            decreases n - i,
        {
            match active[i] {
                EnemyType::UFO => ufo = true,
                EnemyType::GuidedMissile => missile = true,
                EnemyType::BigSpinner => big = true,
                EnemyType::SmallSpinner => small = true,
                _ => {},
            }
            i = i + 1;
        }
        let (ufo_on, ufo_cue) = loop_transition(self.ufo_sound_active, ufo, available.ufo);
        let (missile_on, missile_cue) = loop_transition(
            self.missile_sound_active,
            missile,
            available.missile,
        );
        let (big_on, big_cue) = loop_transition(
            self.big_spinner_sound_active,
            big,
            available.big_spinner,
        );
        let (small_on, small_cue) = loop_transition(
            self.small_spinner_sound_active,
            small,
            available.small_spinner,
        );
        self.ufo_sound_active = ufo_on;
        self.missile_sound_active = missile_on;
        self.big_spinner_sound_active = big_on;
        self.small_spinner_sound_active = small_on;
        LoopCues { ufo: ufo_cue, missile: missile_cue, big_spinner: big_cue, small_spinner: small_cue }
    }

    /// Whether the score band changed since the multiplier `previous`.
    pub fn multiplier_changed(&self, previous: i32) -> (changed: bool)
        ensures
            changed == (multiplier_of(self.score as int) != previous),
    {
        let (m, _) = self.get_multiplier_and_bg();
        m != previous
    }

    /// Whether the game is over at the end of a frame: no life left and no
    /// wreck on screen.
    pub fn out_of_lives(&self) -> (over: bool)
        ensures
            over == (self.lives == 0 && !self.player_dead),
    {
        self.lives == 0 && !self.player_dead
    }

    /// The rules of a game read back from a save file. The file holds the
    /// score, lives, ship size and shot timing, and the spawn timer; what it
    /// does not hold starts empty (no shield charges and no room for any, no
    /// running timers, no sidekicks, no warning loops), and the game resumes
    /// as `resume_loaded` describes.
    pub fn restore(
        score: i32,
        lives: i32,
        width: i32,
        height: i32,
        last_shot_time: i64,
        fire_rate: i64,
        spawn_timer: i64,
        master_volume: u32,
        sfx_volume: u32,
        music_volume: u32,
    ) -> (g: Self)
        ensures
            g.wf(),
            g.score == score,
            g.lives == lives,
            g.player.width == width,
            g.player.height == height,
            g.player.last_shot_time == last_shot_time,
            g.player.fire_rate == fire_rate,
            g.player.flash_timer == 0,
            g.player.shields == 0,
            g.player.max_shields == 0,
            !g.player.is_shielded,
            g.player.shield_active_timer == 0,
            g.player.invincible_timer == 0,
            g.player.spinner_invincible_timer == 0,
            g.player.sidekicks@.len() == 0,
            !g.player_dead,
            g.dead_timer == 0,
            g.spawn_timer == spawn_timer,
            g.master_volume == master_volume,
            g.sfx_volume == sfx_volume,
            g.music_volume == music_volume,
            g.load_notification_timer == NOTICE_US,
            g.mod_poly_wave_remaining == 0,
            !g.ufo_sound_active,
            !g.missile_sound_active,
            !g.big_spinner_sound_active,
            !g.small_spinner_sound_active,
    {
        let player = Player {
            width,
            height,
            last_shot_time,
            fire_rate,
            flash_timer: 0,
            shields: 0,
            max_shields: 0,
            is_shielded: false,
            shield_active_timer: 0,
            invincible_timer: 0,
            spinner_invincible_timer: 0,
            sidekicks: Vec::new(),
        };
        let mut g = GameState {
            score,
            lives,
            player,
            player_dead: false,
            dead_timer: 0,
            spawn_timer,
            master_volume: 0,
            sfx_volume: 0,
            music_volume: 0,
            load_notification_timer: 0,
            mod_poly_wave_remaining: 0,
            ufo_sound_active: false,
            missile_sound_active: false,
            big_spinner_sound_active: false,
            small_spinner_sound_active: false,
        };
        g.resume_loaded(master_volume, sfx_volume, music_volume);
        g
    }

    /// Prepares a game read back from a save: the current volumes apply, the
    /// "GAME LOADED" notice shows, no poly wave is pending, and a saved wreck
    /// is dropped so the ship flies at once.
    pub fn resume_loaded(&mut self, master_volume: u32, sfx_volume: u32, music_volume: u32)
        requires
            old(self).wf(),
        ensures
            final(self).wf(),
            *final(self) == (GameState {
                master_volume,
                sfx_volume,
                music_volume,
                load_notification_timer: NOTICE_US,
                mod_poly_wave_remaining: 0,
                player_dead: false,
                dead_timer: 0,
                ..*old(self)
            }),
    {
        self.master_volume = master_volume;
        self.sfx_volume = sfx_volume;
        self.music_volume = music_volume;
        self.load_notification_timer = NOTICE_US;
        self.mod_poly_wave_remaining = 0;
        self.player_dead = false;
        self.dead_timer = 0;
    }
}

/// One transition of a looping warning sound.
pub fn loop_transition(active: bool, present: bool, available: bool) -> (r: (bool, LoopCue))
    ensures
        r == loop_step(active, present, available),
{
    if present {
        if active {
            (true, LoopCue::Keep)
        } else if available {
            (true, LoopCue::Start)
        } else {
            (false, LoopCue::Keep)
        }
    } else if active {
        (false, if available { LoopCue::Stop } else { LoopCue::Keep })
    } else {
        (false, LoopCue::Keep)
    }
}

/// Direction of the star drift for a score: it flips every 10,000 points.
pub fn star_direction(score: i32) -> (dir: i32)
    ensures
        dir == star_direction_of(score as int),
{
    let s = score as i64;
    let band = if s >= 0 {
        s / 10_000
    } else {
        -((-s) / 10_000)
    };
    if band % 2 == 0 {
        1
    } else {
        -1
    }
}

/// The multiplier stays within 1..=6 and never falls as the score grows.
pub proof fn lemma_multiplier_monotone(a: int, b: int)
    requires
        a <= b,
    ensures
        1 <= multiplier_of(a) <= multiplier_of(b) <= 6,
{
}

/// The spawn rate rises with the multiplier: whenever a tick is due at a
/// multiplier it is due at any higher one, the interval `20 / (19 + m)`
/// seconds being shorter.
pub proof fn lemma_spawn_rate_rises(timer_us: int, m1: int, m2: int)
    requires
        timer_us >= 0,
        1 <= m1 <= m2,
    ensures
        spawn_due(timer_us, m1) ==> spawn_due(timer_us, m2),
{
    assert(timer_us * (19 + m1) <= timer_us * (19 + m2)) by (nonlinear_arith)
        requires
            timer_us >= 0,
            m1 <= m2,
    ;
}

/// While a poly wave is pending the spawn table is not consulted: each due
/// tick sends the next poly snake whatever the samples.
pub proof fn lemma_poly_wave_ignores_rolls(
    g: GameState,
    dt: int,
    roll: int,
    wave_roll: int,
    roll2: int,
    wave_roll2: int,
)
    requires
        g.mod_poly_wave_remaining > 0,
    ensures
        g.spawn_outcome(dt, roll, wave_roll) == g.spawn_outcome(dt, roll2, wave_roll2),
        spawn_due(g.spawn_timer + dt, multiplier_of(g.score as int)) ==> g.spawn_outcome(
            dt,
            roll,
            wave_roll,
        ).1 == Some(EnemyType::PolySnake) && g.spawn_outcome(
            dt,
            roll,
            wave_roll,
        ).0.mod_poly_wave_remaining == g.mod_poly_wave_remaining - 1,
{
}

/// A frame costs at most one life and never gives one, and leaves the
/// score at zero or above: the landings of the frame, then its kills, then
/// a contact with the ship, as play resolves them in that order. A landing
/// that wrecks the ship leaves a wreck, which a contact cannot hit again.
pub proof fn lemma_frame_costs_at_most_one_life(
    g: GameState,
    landed: Seq<EnemyType>,
    killed: Seq<EnemyType>,
    multiplier: int,
)
    requires
        i32::MIN <= g.landing_result(landed).0.score + multiplier * points_sum(killed)
            <= i32::MAX,
    ensures
        ({
            let after = g.landing_result(landed).0.kills_result(killed, multiplier).hit_result().0;
            &&& g.lives - 1 <= after.lives <= g.lives
            &&& g.lives >= 0 ==> after.lives >= 0
            &&& after.score >= 0
        }),
{
    lemma_sums_nonneg(landed);
    lemma_multiplier_monotone(g.score as int, g.score as int);
    lemma_scaled_between(multiplier_of(g.score as int), 0, penalty_sum(landed));
}

/// The score never goes below zero, whatever is added or taken away.
pub proof fn lemma_score_floor(score: int, delta: int)
    ensures
        clamped_score(score, delta) >= 0,
        score + delta >= 0 ==> clamped_score(score, delta) == score + delta,
{
}

/// The star drift flips direction every 10,000 points.
pub proof fn lemma_star_direction_flips(score: int)
    requires
        score >= 0,
    ensures
        star_direction_of(score + 10_000) == -star_direction_of(score),
        star_direction_of(score) == 1 || star_direction_of(score) == -1,
{
    vstd::arithmetic::div_mod::lemma_div_plus_one(score, 10_000);
}

/// Each kill adds its points times the multiplier: shooting one more enemy
/// of kind `k` raises the score by `multiplier * kill_points_of(k)`, so a
/// small rock is worth 20 and a big spinner 40 per multiplier step, from any
/// score.
pub proof fn lemma_one_more_kill(g: GameState, killed: Seq<EnemyType>, k: EnemyType, multiplier: int)
    requires
        g.score >= 0,
        multiplier >= 1,
        g.score + multiplier * points_sum(killed.push(k)) <= i32::MAX,
    ensures
        g.kills_result(killed.push(k), multiplier).score == g.kills_result(killed, multiplier).score
            + multiplier * kill_points_of(k),
        g.kills_result(killed, multiplier).score >= g.score,
        k == EnemyType::SmallRock ==> g.kills_result(killed.push(k), multiplier).score
            == g.kills_result(killed, multiplier).score + 20 * multiplier,
        k == EnemyType::BigSpinner ==> g.kills_result(killed.push(k), multiplier).score
            == g.kills_result(killed, multiplier).score + 40 * multiplier,
{
    crate::enemy::lemma_kill_points();
    lemma_sums_nonneg(killed);
    assert(killed.push(k).drop_last() =~= killed);
    let p = points_sum(killed);
    assert(0 <= multiplier * p <= multiplier * (p + kill_points_of(k))) by (nonlinear_arith)
        requires
            multiplier >= 1,
            p >= 0,
            kill_points_of(k) > 0,
    ;
    assert(multiplier * (p + kill_points_of(k)) == multiplier * p + multiplier * kill_points_of(
        k,
    )) by (nonlinear_arith);
    assert(points_sum(killed.push(k)) == p + kill_points_of(k));
    if k == EnemyType::SmallRock {
        let kp = kill_points_of(k);
        assert(kp == 20);
        assert(multiplier * kp == 20 * multiplier) by (nonlinear_arith)
            requires
                kp == 20,
        ;
    }
    if k == EnemyType::BigSpinner {
        let kp = kill_points_of(k);
        assert(kp == 40);
        assert(multiplier * kp == 40 * multiplier) by (nonlinear_arith)
            requires
                kp == 40,
        ;
    }
    assert(clamped_score(g.score as int, multiplier * p) == g.score + multiplier * p);
    assert(g.kills_result(killed, multiplier).score == g.score + multiplier * p);
    assert(g.kills_result(killed.push(k), multiplier).score == g.score + multiplier * (p
        + kill_points_of(k)));
}

/// A rock landing costs its penalty times the multiplier of the score
/// before the landing (5 for a big rock, 10 for a small one), never taking
/// the score below zero, and costs no life.
pub proof fn lemma_rock_landing(g: GameState, rock: EnemyType)
    requires
        rock == EnemyType::BigRock || rock == EnemyType::SmallRock,
    ensures
        g.landing_result(seq![rock]).0.lives == g.lives,
        g.landing_result(seq![rock]).1 == HitOutcome::Unaffected,
        g.landing_result(seq![rock]).0.score == clamped_score(
            g.score as int,
            -(multiplier_of(g.score as int) * (if rock == EnemyType::BigRock {
                5int
            } else {
                10int
            })),
        ),
{
    let s = seq![rock];
    assert(s.drop_last() =~= Seq::<EnemyType>::empty());
    assert(s.last() == rock);
    assert(penalty_sum(s.drop_last()) == 0);
    assert(penalty_sum(s) == landing_penalty_of(rock));
    assert(!GameState::deadly_landing(s)) by {
        if GameState::deadly_landing(s) {
            let i = choose|i: int| 0 <= i < s.len() && landing_is_deadly(#[trigger] s[i]);
            assert(s[i] == rock);
        }
    }
    lemma_multiplier_monotone(g.score as int, g.score as int);
}

/// The multiplier starts at 1 and steps up by one just above each of
/// 1,000, 5,000, 20,000, 50,000 and 100,000 points, and nowhere else.
pub proof fn lemma_multiplier_steps(score: int)
    ensures
        score <= 1_000 ==> multiplier_of(score) == 1,
        multiplier_of(1_001) == multiplier_of(1_000) + 1,
        multiplier_of(5_001) == multiplier_of(5_000) + 1,
        multiplier_of(20_001) == multiplier_of(20_000) + 1,
        multiplier_of(50_001) == multiplier_of(50_000) + 1,
        multiplier_of(100_001) == multiplier_of(100_000) + 1,
        score != 1_000 && score != 5_000 && score != 20_000 && score != 50_000 && score
            != 100_000 ==> multiplier_of(score + 1) == multiplier_of(score),
{
}

/// What a due spawn tick with no poly wave pending puts on the field,
/// according to its rolls: a wave roll below 200 queues a wave of thirteen
/// poly snakes and spawns nothing yet; otherwise the table roll's band
/// decides (below 5,000 points: under 1,500 a guided missile, under 2,900 a
/// small spinner, under 4,100 a big spinner, else a big rock; from 5,000
/// points: under 1,000 a UFO, then missiles, small and big spinners and big
/// rocks). A tick that is not due spawns nothing and keeps counting.
pub proof fn lemma_due_tick_spawns(g: GameState, dt: int, roll: int, wave_roll: int)
    requires
        0 <= roll < 10_000,
        0 <= wave_roll < 10_000,
    ensures
        !spawn_due(g.spawn_timer + dt, multiplier_of(g.score as int)) ==> g.spawn_outcome(
            dt,
            roll,
            wave_roll,
        ).1 == None::<EnemyType>,
        spawn_due(g.spawn_timer + dt, multiplier_of(g.score as int)) && g.mod_poly_wave_remaining
            <= 0 ==> {
            let (next, spawn) = g.spawn_outcome(dt, roll, wave_roll);
            &&& wave_roll < 200 ==> spawn == None::<EnemyType> && next.mod_poly_wave_remaining
                == 13
            &&& wave_roll >= 200 && g.score < 5_000 ==> spawn == Some(
                if roll < 1_500 {
                    EnemyType::GuidedMissile
                } else if roll < 2_900 {
                    EnemyType::SmallSpinner
                } else if roll < 4_100 {
                    EnemyType::BigSpinner
                } else {
                    EnemyType::BigRock
                },
            )
            &&& wave_roll >= 200 && g.score >= 5_000 ==> spawn == Some(
                if roll < 1_000 {
                    EnemyType::UFO
                } else if roll < 2_200 {
                    EnemyType::GuidedMissile
                } else if roll < 3_800 {
                    EnemyType::SmallSpinner
                } else if roll < 5_200 {
                    EnemyType::BigSpinner
                } else {
                    EnemyType::BigRock
                },
            )
        },
{
    lemma_spawn_table(g.score as int, roll, wave_roll);
    let sc = g.score as int;
    if wave_roll >= 200 {
        assert(roll_band(sc, spawn_kind_for(sc, roll, wave_roll)).contains(roll));
    }
}

/// Each multiplier band has its own backdrop: black at 1x, dark blue at
/// 2x, dark purple at 3x, dark turquoise at 4x, gray at 5x and black again
/// at 6x.
pub proof fn lemma_backdrop_follows_multiplier(score: int)
    ensures
        multiplier_of(score) == 1 ==> backdrop_of(score) == Backdrop::Black,
        multiplier_of(score) == 2 ==> backdrop_of(score) == Backdrop::DarkBlue,
        multiplier_of(score) == 3 ==> backdrop_of(score) == Backdrop::DarkPurple,
        multiplier_of(score) == 4 ==> backdrop_of(score) == Backdrop::DarkTurquoise,
        multiplier_of(score) == 5 ==> backdrop_of(score) == Backdrop::Gray,
        multiplier_of(score) == 6 ==> backdrop_of(score) == Backdrop::Black,
{
}

} // verus!
