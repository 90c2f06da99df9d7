//! The dice of the game: every random number that a turn consumes.
//!
//! Chance enters the engine in one place, [`roll`]. Everything that depends on
//! it takes the numbers rolled as an argument and is a function of them, so it
//! is verified for every outcome of the dice.

use rand::Rng;
use vstd::prelude::*;

verus! {

/// Rolls a number from `low` to `high`, both included.
///
/// This calls `rand::Rng::gen_range` on `rand::thread_rng()` with the range
/// `low..=high`. Nothing is proved of it; the contract claims only that the
/// number lies in the range asked for, whichever it is. `gen_range` panics on
/// an empty range, so the range must hold at least one number.
#[verifier::external_body]
pub(crate) fn roll(low: i32, high: i32) -> (rolled: i32)
    requires
        low <= high,
    ensures
        low <= rolled <= high,
{
    rand::thread_rng().gen_range(low..=high)
}

/// The numbers rolled for one creature's turn.
#[derive(Debug, Clone, Copy, PartialEq, Eq, Structural)]
pub struct TurnRolls {
    /// Decides whether a merchant moves at all: it does below 24.
    pub move_chance: i32,
    /// The direction tried first when wandering: 0 is down, 1 up, 2 right,
    /// anything else left.
    pub first_direction: i32,
    /// The direction tried when the first is blocked.
    pub second_direction: i32,
    /// Decides whether a merchant that moved drops a ware: it does below 15.
    pub drop_chance: i32,
    /// The ware dropped: 0 is a gem, 1 a scroll, anything else a potion.
    pub ware: i32,
    /// The damage of an orc's blow.
    pub damage: i32,
}

/// The least damage of an orc's blow.
pub const MIN_DAMAGE: i32 = 5;

/// The greatest damage of an orc's blow.
pub const MAX_DAMAGE: i32 = 20;

impl TurnRolls {
    /// Whether each number lies in the range that the dice give it: chances
    /// from 0 to 99, directions from 0 to 3, the ware from 0 to 2, the damage
    /// from 5 to 20.
    pub open spec fn valid(self) -> bool {
        &&& 0 <= self.move_chance <= 99
        &&& 0 <= self.first_direction <= 3
        &&& 0 <= self.second_direction <= 3
        &&& 0 <= self.drop_chance <= 99
        &&& 0 <= self.ware <= 2
        &&& MIN_DAMAGE <= self.damage <= MAX_DAMAGE
    }

    /// Rolls the dice for one creature's turn.
    pub fn draw() -> (rolls: TurnRolls)
        ensures
            rolls.valid(),
    {
        let move_chance = roll(0, 99);
        let first_direction = roll(0, 3);
        let second_direction = roll(0, 3);
        let drop_chance = roll(0, 99);
        let ware = roll(0, 2);
        let damage = roll(MIN_DAMAGE, MAX_DAMAGE);
        TurnRolls { move_chance, first_direction, second_direction, drop_chance, ware, damage }
    }
}

} // verus!
