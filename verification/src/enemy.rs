use crate::constants::UFO_BOMB_COOLDOWN_US;
use vstd::prelude::*;

verus! {

/// The kinds of falling threats.
#[derive(Clone, Copy, Debug, PartialEq, Eq, Structural)]
pub enum EnemyType {
    BigRock,
    SmallRock,
    BigSpinner,
    SmallSpinner,
    GuidedMissile,
    UFO,
    UFOBomb,
    PolySnake,
}

/// Base points for destroying an enemy, before the score multiplier.
pub open spec fn kill_points_of(kind: EnemyType) -> int {
    match kind {
        EnemyType::BigRock => 10,
        EnemyType::SmallRock => 20,
        EnemyType::BigSpinner => 40,
        EnemyType::SmallSpinner => 80,
        EnemyType::GuidedMissile => 50,
        EnemyType::UFO => 100,
        EnemyType::UFOBomb => 10,
        EnemyType::PolySnake => 150,
    }
}

/// Base points lost when an enemy reaches the ground, before the multiplier.
pub open spec fn landing_penalty_of(kind: EnemyType) -> int {
    match kind {
        EnemyType::BigRock => 5,
        EnemyType::SmallRock => 10,
        _ => 0,
    }
}

pub open spec fn is_spinner_kind(kind: EnemyType) -> bool {
    kind == EnemyType::BigSpinner || kind == EnemyType::SmallSpinner
}

/// Kinds whose landing costs the player a life (unless shielded).
pub open spec fn landing_is_deadly(kind: EnemyType) -> bool {
    kind == EnemyType::BigSpinner || kind == EnemyType::SmallSpinner || kind
        == EnemyType::PolySnake
}

/// Kinds that stop on the playfield floor; guided missiles and UFOs do not.
pub open spec fn lands_on_playfield_kind(kind: EnemyType) -> bool {
    kind != EnemyType::GuidedMissile && kind != EnemyType::UFO
}

impl EnemyType {
    /// Base points for destroying this enemy.
    pub fn kill_points(self) -> (points: i32)
        ensures
            points == kill_points_of(self),
    {
        match self {
            EnemyType::BigRock => 10,
            EnemyType::SmallRock => 20,
            EnemyType::BigSpinner => 40,
            EnemyType::SmallSpinner => 80,
            EnemyType::GuidedMissile => 50,
            EnemyType::UFO => 100,
            EnemyType::UFOBomb => 10,
            EnemyType::PolySnake => 150,
        }
    }

    /// Base points lost when this enemy lands.
    pub fn landing_penalty(self) -> (points: i32)
        ensures
            points == landing_penalty_of(self),
    {
        match self {
            EnemyType::BigRock => 5,
            EnemyType::SmallRock => 10,
            _ => 0,
        }
    }

    /// Big and small spinners.
    pub fn is_spinner(self) -> (b: bool)
        ensures
            b == is_spinner_kind(self),
    {
        matches!(self, EnemyType::BigSpinner | EnemyType::SmallSpinner)
    }

    /// Whether this enemy's landing takes a life from an unshielded player.
    pub fn landing_is_deadly(self) -> (b: bool)
        ensures
            b == landing_is_deadly(self),
    {
        matches!(self, EnemyType::BigSpinner | EnemyType::SmallSpinner | EnemyType::PolySnake)
    }

    /// Whether this enemy stops (and is removed) when it reaches the floor.
    pub fn lands_on_playfield(self) -> (b: bool)
        ensures
            b == lands_on_playfield_kind(self),
    {
        matches!(
            self,
            EnemyType::BigRock | EnemyType::SmallRock | EnemyType::BigSpinner
                | EnemyType::SmallSpinner | EnemyType::UFOBomb | EnemyType::PolySnake
        )
    }

    /// Whether destroying this enemy releases two small rocks.
    pub fn splits_on_kill(self) -> (b: bool)
        ensures
            b == (self == EnemyType::BigRock),
    {
        matches!(self, EnemyType::BigRock)
    }
}

/// Whether the enemies that landed this frame wipe out the sidekick
/// formation: a spinner reaching the ground does.
pub fn landing_wipes_formation(landed: &Vec<EnemyType>) -> (wipe: bool)
    ensures
        wipe == exists|i: int| 0 <= i < landed@.len() && is_spinner_kind(#[trigger] landed@[i]),
{
    let mut i: usize = 0;
    while i < landed.len()
        invariant
            0 <= i <= landed@.len(),
            forall|k: int| 0 <= k < i ==> !is_spinner_kind(#[trigger] landed@[k]),
        decreases landed@.len() - i,
    {
        if landed[i].is_spinner() {
            return true;
        }
        i = i + 1;
    }
    false
}

/// Advances a UFO's bomb cooldown by one frame: once it runs out, a bomb is
/// dropped and the cooldown restarts.
pub fn ufo_bomb_tick(cooldown_us: i64, dt_us: i64) -> (r: (i64, bool))
    requires
        0 <= dt_us,
    ensures
        r.1 == (cooldown_us - dt_us <= 0),
        r.0 == (if r.1 { UFO_BOMB_COOLDOWN_US as int } else { cooldown_us - dt_us }),
{
    if cooldown_us <= dt_us {
        (UFO_BOMB_COOLDOWN_US, true)
    } else {
        (cooldown_us - dt_us, false)
    }
}

/// What a kill is worth: 10 for a big rock and twice that for the small
/// rock it breaks into; 40 for a big spinner and twice that for a small one,
/// a spinner being worth four rocks of its size; 50 for a guided missile,
/// 100 for a UFO, 10 for a UFO bomb and 150 for a poly snake. Every kill
/// scores.
pub proof fn lemma_kill_points()
    ensures
        kill_points_of(EnemyType::BigRock) == 10,
        kill_points_of(EnemyType::SmallRock) == 2 * kill_points_of(EnemyType::BigRock),
        kill_points_of(EnemyType::BigSpinner) == 4 * kill_points_of(EnemyType::BigRock),
        kill_points_of(EnemyType::SmallSpinner) == 2 * kill_points_of(EnemyType::BigSpinner),
        kill_points_of(EnemyType::SmallSpinner) == 4 * kill_points_of(EnemyType::SmallRock),
        kill_points_of(EnemyType::GuidedMissile) == 50,
        kill_points_of(EnemyType::UFO) == 100,
        kill_points_of(EnemyType::UFOBomb) == 10,
        kill_points_of(EnemyType::PolySnake) == 150,
        forall|k: EnemyType| kill_points_of(k) > 0,
{
}

/// A rock reaching the ground costs half of what shooting it earns (5 for a
/// big one, 10 for a small one); nothing else costs points on landing.
pub proof fn lemma_landing_penalties(kind: EnemyType)
    ensures
        landing_penalty_of(EnemyType::BigRock) == 5,
        landing_penalty_of(EnemyType::SmallRock) == 10,
        (kind == EnemyType::BigRock || kind == EnemyType::SmallRock) ==> 2 * landing_penalty_of(
            kind,
        ) == kill_points_of(kind),
        (kind != EnemyType::BigRock && kind != EnemyType::SmallRock) ==> landing_penalty_of(kind)
            == 0,
{
}

/// Which kinds do what on the ground: the two spinners and the poly snake
/// take a life when they land; everything but guided missiles and UFOs
/// lands; the spinners are exactly the big and the small spinner; only a
/// big rock splits. A deadly lander always lands, and a rock is never
/// deadly.
pub proof fn lemma_enemy_kinds(kind: EnemyType)
    ensures
        landing_is_deadly(kind) <==> (kind == EnemyType::BigSpinner || kind
            == EnemyType::SmallSpinner || kind == EnemyType::PolySnake),
        !lands_on_playfield_kind(kind) <==> (kind == EnemyType::GuidedMissile || kind
            == EnemyType::UFO),
        is_spinner_kind(kind) <==> (kind == EnemyType::BigSpinner || kind
            == EnemyType::SmallSpinner),
        is_spinner_kind(kind) ==> landing_is_deadly(kind),
        landing_is_deadly(kind) ==> lands_on_playfield_kind(kind),
        landing_penalty_of(kind) > 0 ==> !landing_is_deadly(kind),
{
}

} // verus!
