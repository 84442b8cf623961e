use crate::constants::{
    FIRE_RATE_US, FLASH_US, MAX_SHIELDS, MAX_SIDEKICKS, PLAYER_HEIGHT, PLAYER_WIDTH,
    RESPAWN_INVINCIBILITY_US, SHIELD_DURATION_US, SIDEKICK_DROP, SIDEKICK_GAP, SIDEKICK_SPACING,
    SPINNER_INVINCIBILITY_US,
};
use crate::enemy::{is_spinner_kind, EnemyType};
use crate::powerup::PowerUpType;
use crate::sidekick::{fresh_sidekick, sidekick_fires, Sidekick};
use vstd::prelude::*;

verus! {

/// The rules-side state of the player ship: shot timing, shield charges,
/// timers (in microseconds) and the sidekick formation. Its position and
/// motion are floating-point and kept by the application.
#[derive(Clone, Debug)]
pub struct Player {
    /// Ship size in whole pixels.
    pub width: i32,
    pub height: i32,
    /// Time of the last shot, in microseconds of game clock.
    pub last_shot_time: i64,
    /// Microseconds between two shots.
    pub fire_rate: i64,
    pub flash_timer: i64,
    pub shields: i32,
    pub max_shields: i32,
    pub is_shielded: bool,
    pub shield_active_timer: i64,
    pub invincible_timer: i64,
    pub spinner_invincible_timer: i64,
    pub sidekicks: Vec<Sidekick>,
}

/// One frame of a count-down timer: it only runs while positive.
pub open spec fn tick_down(t: int, dt: int) -> int {
    if t > 0 {
        t - dt
    } else {
        t
    }
}

/// Horizontal offset, in half pixels, of the sidekick that joins a formation
/// of `count` beside a ship `width` pixels wide: half the ship's width plus
/// the gap, alternately left and right, each pair one spacing further out.
pub open spec fn formation_offset_x(count: int, width: int) -> int {
    let reach = width + 2 * SIDEKICK_GAP + 2 * (count / 2) * SIDEKICK_SPACING;
    if count % 2 == 0 {
        -reach
    } else {
        reach
    }
}

impl Player {
    /// Validity: shield charges within the capacity, at most six
    /// sidekicks, and a running shield has time left.
    pub open spec fn wf(&self) -> bool {
        &&& 0 <= self.shields <= self.max_shields
        &&& self.sidekicks.len() <= MAX_SIDEKICKS
        &&& self.is_shielded ==> self.shield_active_timer > 0
    }

    /// A ship as it starts a game: no shield charges (room for six), three
    /// seconds of invincibility, ten seconds of protection against spinners,
    /// no sidekicks.
    pub open spec fn is_fresh(&self) -> bool {
        &&& self.width == PLAYER_WIDTH
        &&& self.height == PLAYER_HEIGHT
        &&& self.last_shot_time == 0
        &&& self.fire_rate == FIRE_RATE_US
        &&& self.flash_timer == 0
        &&& self.shields == 0
        &&& self.max_shields == MAX_SHIELDS
        &&& !self.is_shielded
        &&& self.shield_active_timer == 0
        &&& self.invincible_timer == RESPAWN_INVINCIBILITY_US
        &&& self.spinner_invincible_timer == SPINNER_INVINCIBILITY_US
        &&& self.sidekicks@.len() == 0
    }

    /// The ship after its timers ran for `dt` microseconds.
    pub open spec fn ticked(self, dt: int) -> Player {
        Player {
            flash_timer: tick_down(self.flash_timer as int, dt) as i64,
            invincible_timer: tick_down(self.invincible_timer as int, dt) as i64,
            spinner_invincible_timer: tick_down(self.spinner_invincible_timer as int, dt) as i64,
            shield_active_timer: if self.is_shielded {
                (self.shield_active_timer - dt) as i64
            } else {
                self.shield_active_timer
            },
            is_shielded: self.is_shielded && self.shield_active_timer - dt > 0,
            ..self
        }
    }

    /// A new ship: no shields yet (room for six), three seconds of
    /// invincibility and ten seconds of protection against spinners.
    pub fn new() -> (p: Self)
        ensures
            p.wf(),
            p.is_fresh(),
    {
        Player {
            width: PLAYER_WIDTH,
            height: PLAYER_HEIGHT,
            last_shot_time: 0,
            fire_rate: FIRE_RATE_US,
            flash_timer: 0,
            shields: 0,
            max_shields: MAX_SHIELDS,
            is_shielded: false,
            shield_active_timer: 0,
            invincible_timer: RESPAWN_INVINCIBILITY_US,
            spinner_invincible_timer: SPINNER_INVINCIBILITY_US,
            sidekicks: Vec::new(),
        }
    }

    /// Starts the muzzle flash.
    pub fn trigger_flash(&mut self)
        requires
            old(self).wf(),
        ensures
            final(self).wf(),
            *final(self) == (Player { flash_timer: FLASH_US, ..*old(self) }),
    {
        self.flash_timer = FLASH_US;
    }

    /// Runs the ship's timers for one frame of `dt_us` microseconds; a shield
    /// switches off once its time is used up.
    pub fn update(&mut self, dt_us: i64)
        requires
            old(self).wf(),
            0 <= dt_us,
        ensures
            final(self).wf(),
            *final(self) == old(self).ticked(dt_us as int),
    {
        if self.flash_timer > 0 {
            self.flash_timer = self.flash_timer - dt_us;
        }
        if self.invincible_timer > 0 {
            self.invincible_timer = self.invincible_timer - dt_us;
        }
        if self.spinner_invincible_timer > 0 {
            self.spinner_invincible_timer = self.spinner_invincible_timer - dt_us;
        }
        if self.is_shielded {
            self.shield_active_timer = self.shield_active_timer - dt_us;
            if self.shield_active_timer <= 0 {
                self.is_shielded = false;
            }
        }
    }

    /// Spends a shield charge on a five-second shield, if a charge is left
    /// and no shield is running.
    pub fn activate_shield(&mut self)
        requires
            old(self).wf(),
        ensures
            final(self).wf(),
            *final(self) == (if old(self).shields > 0 && !old(self).is_shielded {
                Player {
                    shields: (old(self).shields - 1) as i32,
                    is_shielded: true,
                    shield_active_timer: SHIELD_DURATION_US,
                    ..*old(self)
                }
            } else {
                *old(self)
            }),
    {
        if self.shields > 0 && !self.is_shielded {
            self.shields = self.shields - 1;
            self.is_shielded = true;
            self.shield_active_timer = SHIELD_DURATION_US;
        }
    }

    /// Adds a sidekick to the formation, unless six already fly: the next
    /// slot alternates left and right of the ship, each pair one spacing
    /// further out, level with the ship's baseline.
    pub fn add_sidekick(&mut self)
        requires
            old(self).wf(),
        ensures
            final(self).wf(),
            old(self).sidekicks.len() >= MAX_SIDEKICKS ==> *final(self) == *old(self),
            old(self).sidekicks.len() < MAX_SIDEKICKS ==> *final(self) == (Player {
                sidekicks: final(self).sidekicks,
                ..*old(self)
            }),
            old(self).sidekicks.len() < MAX_SIDEKICKS ==> final(self).sidekicks@ == old(
                self,
            ).sidekicks@.push(
                fresh_sidekick(
                    formation_offset_x(old(self).sidekicks.len() as int, old(self).width as int),
                    2 * SIDEKICK_DROP,
                ),
            ),
    {
        if self.sidekicks.len() >= MAX_SIDEKICKS {
            return;
        }
        let count = self.sidekicks.len();
        let is_left = count % 2 == 0;
        let pair_index = (count / 2) as i64;
        let reach = self.width as i64 + 2 * SIDEKICK_GAP as i64 + 2 * pair_index
            * SIDEKICK_SPACING as i64;
        let offset_x = if is_left {
            -reach
        } else {
            reach
        };
        let sk = Sidekick::new(offset_x, 2 * SIDEKICK_DROP as i64);
        self.sidekicks.push(sk);
    }

    /// Collects a power-up orb: a shield charge while below capacity, or a
    /// new sidekick.
    pub fn collect_powerup(&mut self, kind: PowerUpType)
        requires
            old(self).wf(),
        ensures
            final(self).wf(),
            kind == PowerUpType::Shield ==> *final(self) == (if old(self).shields < old(
                self,
            ).max_shields {
                Player { shields: (old(self).shields + 1) as i32, ..*old(self) }
            } else {
                *old(self)
            }),
            kind == PowerUpType::Sidekick ==> *final(self) == (Player {
                sidekicks: final(self).sidekicks,
                ..*old(self)
            }),
            kind == PowerUpType::Sidekick && old(self).sidekicks.len() < MAX_SIDEKICKS
                ==> final(self).sidekicks@ == old(self).sidekicks@.push(
                fresh_sidekick(
                    formation_offset_x(old(self).sidekicks.len() as int, old(self).width as int),
                    2 * SIDEKICK_DROP,
                ),
            ),
            kind == PowerUpType::Sidekick && old(self).sidekicks.len() >= MAX_SIDEKICKS
                ==> final(self).sidekicks@ == old(self).sidekicks@,
    {
        match kind {
            PowerUpType::Shield => {
                if self.shields < self.max_shields {
                    self.shields = self.shields + 1;
                }
            },
            PowerUpType::Sidekick => {
                self.add_sidekick();
            },
        }
    }

    /// The trigger: with the fire button held and the fire interval passed
    /// since the last shot, the ship fires, which starts the muzzle flash and
    /// stamps the shot time. Returns whether a shot left the ship.
    pub fn fire(&mut self, firing: bool, now_us: i64) -> (shot: bool)
        requires
            old(self).wf(),
        ensures
            final(self).wf(),
            shot == (firing && now_us - old(self).last_shot_time > old(self).fire_rate),
            *final(self) == (if shot {
                Player { last_shot_time: now_us, flash_timer: FLASH_US, ..*old(self) }
            } else {
                *old(self)
            }),
    {
        if firing && (now_us as i128) - (self.last_shot_time as i128) > self.fire_rate as i128 {
            self.trigger_flash();
            self.last_shot_time = now_us;
            true
        } else {
            false
        }
    }

    /// Auto-fire of the sidekicks at time `now_us`: every active sidekick
    /// whose fire interval has passed fires and stamps its shot time. Returns
    /// the positions in the formation of those that fired, in order.
    pub fn fire_sidekicks(&mut self, now_us: i64) -> (shooters: Vec<usize>)
        requires
            old(self).wf(),
        ensures
            final(self).wf(),
            *final(self) == (Player { sidekicks: final(self).sidekicks, ..*old(self) }),
            final(self).sidekicks.len() == old(self).sidekicks.len(),
            forall|i: int|
                0 <= i < old(self).sidekicks.len() ==> #[trigger] final(self).sidekicks[i] == (
                if sidekick_fires(old(self).sidekicks[i], now_us as int) {
                    Sidekick { last_shot_time: now_us, ..old(self).sidekicks[i] }
                } else {
                    old(self).sidekicks[i]
                }),
            forall|j: int|
                0 <= j < shooters.len() ==> #[trigger] shooters[j] < old(self).sidekicks.len()
                    && sidekick_fires(old(self).sidekicks[shooters[j] as int], now_us as int),
            forall|j: int, k: int| 0 <= j < k < shooters.len() ==> shooters[j] < shooters[k],
            forall|i: int|
                0 <= i < old(self).sidekicks.len() && sidekick_fires(
                    #[trigger] old(self).sidekicks[i],
                    now_us as int,
                ) ==> shooters@.contains(i as usize),
    {
        let mut shooters: Vec<usize> = Vec::new();
        let n = self.sidekicks.len();
        let ghost before = self.sidekicks@;
        let mut i: usize = 0;
        while i < n
            invariant
                n == before.len(),
                0 <= i <= n,
                self.wf(),
                *self == (Player { sidekicks: self.sidekicks, ..*old(self) }),
                before == old(self).sidekicks@,
                self.sidekicks.len() == n,
                forall|k: int|
                    0 <= k < n ==> #[trigger] self.sidekicks[k] == (if k < i && sidekick_fires(
                        before[k],
                        now_us as int,
                    ) {
                        Sidekick { last_shot_time: now_us, ..before[k] }
                    } else {
                        before[k]
                    }),
                forall|j: int|
                    0 <= j < shooters.len() ==> #[trigger] shooters[j] < i && sidekick_fires(
                        before[shooters[j] as int],
                        now_us as int,
                    ),
                forall|j: int, k: int| 0 <= j < k < shooters.len() ==> shooters[j] < shooters[k],
                forall|k: int|
                    0 <= k < i && sidekick_fires(#[trigger] before[k], now_us as int)
                        ==> shooters@.contains(k as usize),
            decreases n - i,
        {
            let sk = self.sidekicks[i];
            if sk.active && (now_us as i128) - (sk.last_shot_time as i128) > sk.fire_rate as i128 {
                let fired = Sidekick { last_shot_time: now_us, ..sk };
                self.sidekicks.set(i, fired);
                let ghost old_shooters = shooters@;
                shooters.push(i);
                assert(shooters@[shooters@.len() - 1] == i);
                assert forall|k: int|
                    0 <= k < i + 1 && sidekick_fires(#[trigger] before[k], now_us as int)
                    implies shooters@.contains(k as usize) by {
                    if k < i {
                        assert(old_shooters.contains(k as usize));
                        let w = choose|w: int| 0 <= w < old_shooters.len() && old_shooters[w] == k as usize;
                        assert(shooters@[w] == k as usize);
                    }
                }
            }
            i = i + 1;
        }
        shooters
    }

    /// A sidekick is struck by an enemy: it is lost, and a spinner's strike
    /// wipes the whole formation. Returns whether the formation is wiped.
    pub fn strike_sidekick(&mut self, index: usize, enemy: EnemyType) -> (wipe: bool)
        requires
            old(self).wf(),
            index < old(self).sidekicks.len(),
        ensures
            final(self).wf(),
            wipe == is_spinner_kind(enemy),
            *final(self) == (Player { sidekicks: final(self).sidekicks, ..*old(self) }),
            final(self).sidekicks@ == old(self).sidekicks@.update(
                index as int,
                Sidekick { active: false, ..old(self).sidekicks[index as int] },
            ),
    {
        let sk = self.sidekicks[index];
        self.sidekicks.set(index, Sidekick { active: false, ..sk });
        enemy.is_spinner()
    }

    /// End-of-frame clean-up of the formation. On a wipe every sidekick goes
    /// and the active ones are returned; otherwise the struck (inactive) ones
    /// are removed, in order, and returned.
    pub fn settle_sidekicks(&mut self, wipe: bool) -> (wrecks: Vec<Sidekick>)
        requires
            old(self).wf(),
        ensures
            final(self).wf(),
            *final(self) == (Player { sidekicks: final(self).sidekicks, ..*old(self) }),
            wipe ==> final(self).sidekicks@.len() == 0,
            wipe ==> wrecks@ == old(self).sidekicks@.filter(|s: Sidekick| s.active),
            !wipe ==> final(self).sidekicks@ == old(self).sidekicks@.filter(|s: Sidekick| s.active),
            !wipe ==> wrecks@ == old(self).sidekicks@.filter(|s: Sidekick| !s.active),
    {
        let ghost before = self.sidekicks@;
        let ghost is_active = |s: Sidekick| s.active;
        let ghost is_struck = |s: Sidekick| !s.active;
        let mut kept: Vec<Sidekick> = Vec::new();
        let mut struck: Vec<Sidekick> = Vec::new();
        let n = self.sidekicks.len();
        let mut i: usize = 0;
        while i < n
            invariant
                n == before.len(),
                before == self.sidekicks@,
                0 <= i <= n,
                is_active == (|s: Sidekick| s.active),
                is_struck == (|s: Sidekick| !s.active),
                kept@ == before.take(i as int).filter(is_active),
                struck@ == before.take(i as int).filter(is_struck),
            decreases n - i,
        {
            let sk = self.sidekicks[i];
            proof {
                reveal(Seq::filter);
                let next = before.take(i + 1);
                assert(next.drop_last() =~= before.take(i as int));
                assert(next.filter(is_active) == (if sk.active {
                    before.take(i as int).filter(is_active).push(sk)
                } else {
                    before.take(i as int).filter(is_active)
                }));
                assert(next.filter(is_struck) == (if !sk.active {
                    before.take(i as int).filter(is_struck).push(sk)
                } else {
                    before.take(i as int).filter(is_struck)
                }));
            }
            if sk.active {
                kept.push(sk);
            } else {
                struck.push(sk);
            }
            i = i + 1;
        }
        proof {
            assert(before.take(n as int) =~= before);
        }
        if wipe {
            self.sidekicks = Vec::new();
            kept
        } else {
            proof {
                before.lemma_filter_len(is_active);
            }
            self.sidekicks = kept;
            struck
        }
    }
}

/// The formation is symmetric and spreads outwards: the sidekicks of each
/// pair fly at mirrored offsets, left first, and each pair flies one spacing
/// further out than the previous one.
pub proof fn lemma_formation_pairs(pair: int, width: int)
    requires
        pair >= 0,
        width >= 0,
    ensures
        formation_offset_x(2 * pair, width) == -formation_offset_x(2 * pair + 1, width),
        formation_offset_x(2 * pair, width) < 0,
        formation_offset_x(2 * pair + 2, width) == formation_offset_x(2 * pair, width) - 2
            * SIDEKICK_SPACING,
{
}

} // verus!
