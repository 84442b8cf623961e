use crate::constants::{POWERUP_DROP_CHANCE, ROLL_SCALE};
use crate::random::{random_coin, random_roll};
use vstd::prelude::*;

verus! {

/// What a power-up orb gives when collected.
#[derive(Clone, Copy, Debug, PartialEq, Eq, Structural)]
pub enum PowerUpType {
    Shield,
    Sidekick,
}

/// The drop rule: an orb with a low `drop_roll` (out of `ROLL_SCALE`), a
/// shield on heads and a sidekick on tails.
pub open spec fn drop_for(drop_roll: int, heads: bool) -> Option<PowerUpType> {
    if drop_roll < POWERUP_DROP_CHANCE {
        Some(if heads { PowerUpType::Shield } else { PowerUpType::Sidekick })
    } else {
        None
    }
}

/// Decides the drop of a destroyed enemy from its two samples.
pub fn powerup_drop(drop_roll: u32, heads: bool) -> (drop: Option<PowerUpType>)
    ensures
        drop == drop_for(drop_roll as int, heads),
{
    if drop_roll < POWERUP_DROP_CHANCE {
        if heads {
            Some(PowerUpType::Shield)
        } else {
            Some(PowerUpType::Sidekick)
        }
    } else {
        None
    }
}

/// Rolls the drop of a destroyed enemy with the game's generator; the coin
/// is only tossed when an orb drops.
pub fn roll_powerup_drop() -> (drop: Option<PowerUpType>)
    ensures
        exists|r: int, heads: bool| 0 <= r < ROLL_SCALE && drop == drop_for(r, heads),
{
    let r = random_roll();
    if r < POWERUP_DROP_CHANCE {
        let heads = random_coin();
        powerup_drop(r, heads)
    } else {
        let d = powerup_drop(r, true);
        assert(drop_for(r as int, true) == d);
        d
    }
}

/// One destroyed enemy in eight drops an orb (a drop roll below 1,250 of
/// 10,000); the coin decides its kind, a shield on heads and a sidekick on
/// tails.
pub proof fn lemma_powerup_drops(drop_roll: int, heads: bool)
    ensures
        drop_for(drop_roll, heads) is Some <==> drop_roll < 1_250,
        drop_roll < 1_250 ==> drop_for(drop_roll, true) == Some(PowerUpType::Shield),
        drop_roll < 1_250 ==> drop_for(drop_roll, false) == Some(PowerUpType::Sidekick),
        8 * 1_250 == ROLL_SCALE,
{
}

} // verus!
