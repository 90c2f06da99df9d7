//! The player character.

use crate::item::{Item, ItemView};
use vstd::prelude::*;

verus! {

/// The player: where they stand, how healthy they are and what they carry.
#[derive(Debug)]
pub struct Player {
    pub position: (i32, i32),
    pub health: i32,
    pub max_health: i32,
    pub level: i32,
    pub experience: i32,
    /// The items carried, in the order in which they were picked up.
    pub inventory: Vec<Item>,
}

/// The mathematical value of a [`Player`].
pub struct PlayerView {
    pub position: (i32, i32),
    pub health: i32,
    pub max_health: i32,
    pub level: i32,
    pub experience: i32,
    pub inventory: Seq<ItemView>,
}

impl View for Player {
    type V = PlayerView;

    open spec fn view(&self) -> PlayerView {
        PlayerView {
            position: self.position,
            health: self.health,
            max_health: self.max_health,
            level: self.level,
            experience: self.experience,
            inventory: self.inventory.deep_view(),
        }
    }
}

/// `value`, held between `low` and `high`.
pub open spec fn clamp(value: int, low: int, high: int) -> int {
    if value < low {
        low
    } else if value > high {
        high
    } else {
        value
    }
}

impl PlayerView {
    /// Health lies between zero and the maximum.
    pub open spec fn wf(self) -> bool {
        0 <= self.health <= self.max_health
    }

    /// A player is alive while any health is left.
    pub open spec fn is_alive(self) -> bool {
        self.health > 0
    }

    /// A fresh player at `position`: full health of 100, level 1, nothing
    /// learned and nothing carried.
    pub open spec fn fresh(position: (i32, i32)) -> PlayerView {
        PlayerView {
            position,
            health: 100,
            max_health: 100,
            level: 1,
            experience: 0,
            inventory: Seq::empty(),
        }
    }

    /// This player at `position`.
    pub open spec fn moved_to(self, position: (i32, i32)) -> PlayerView {
        PlayerView { position, ..self }
    }

    /// This player after `damage` points of harm: health goes down by
    /// `damage` and stays between zero and the maximum.
    pub open spec fn damaged(self, damage: int) -> PlayerView {
        PlayerView {
            health: clamp(self.health - damage, 0, self.max_health as int) as i32,
            ..self
        }
    }

    /// This player after `amount` points of healing: health goes up by
    /// `amount` and stays between zero and the maximum.
    pub open spec fn healed(self, amount: int) -> PlayerView {
        self.damaged(-amount)
    }

    /// This player carrying `item` as well, after everything else.
    pub open spec fn with_item(self, item: ItemView) -> PlayerView {
        PlayerView { inventory: self.inventory.push(item), ..self }
    }

    /// This player without the carried item at index `i`.
    pub open spec fn without_item(self, i: int) -> PlayerView {
        PlayerView { inventory: self.inventory.remove(i), ..self }
    }
}

impl Player {
    /// Health lies between zero and the maximum.
    pub open spec fn wf(&self) -> bool {
        self@.wf()
    }

    /// Whether health lies between zero and the maximum.
    pub fn is_well_formed(&self) -> (well_formed: bool)
        ensures
            well_formed == self.wf(),
    {
        0 <= self.health && self.health <= self.max_health
    }

    pub fn new(x: i32, y: i32) -> (player: Player)
        ensures
            player@ == PlayerView::fresh((x, y)),
            player.wf(),
    {
        let player = Player {
            position: (x, y),
            health: 100,
            max_health: 100,
            level: 1,
            experience: 0,
            inventory: Vec::new(),
        };
        assert(player@.inventory =~= Seq::empty());
        player
    }

    pub fn move_to(&mut self, new_pos: (i32, i32))
        ensures
            final(self)@ == old(self)@.moved_to(new_pos),
    {
        self.position = new_pos;
    }

    /// Takes `damage` points of health away. Health never leaves the range
    /// from zero to the maximum, whatever `damage` is.
    pub fn take_damage(&mut self, damage: i32)
        requires
            old(self).wf(),
        ensures
            final(self)@ == old(self)@.damaged(damage as int),
            final(self).wf(),
    {
        let left: i64 = self.health as i64 - damage as i64;
        if left < 0 {
            self.health = 0;
        } else if left > self.max_health as i64 {
            self.health = self.max_health;
        } else {
            self.health = left as i32;
        }
    }

    /// Gives `amount` points of health back. Health never leaves the range
    /// from zero to the maximum, whatever `amount` is.
    pub fn heal(&mut self, amount: i32)
        requires
            old(self).wf(),
        ensures
            final(self)@ == old(self)@.healed(amount as int),
            final(self).wf(),
    {
        let total: i64 = self.health as i64 + amount as i64;
        if total < 0 {
            self.health = 0;
        } else if total > self.max_health as i64 {
            self.health = self.max_health;
        } else {
            self.health = total as i32;
        }
    }

    pub fn is_alive(&self) -> (alive: bool)
        ensures
            alive == self@.is_alive(),
    {
        self.health > 0
    }
}

impl Default for Player {
    /// A fresh player at the usual starting tile, `(10, 15)`.
    fn default() -> (player: Player)
        ensures
            player@ == PlayerView::fresh((10, 15)),
            player.wf(),
    {
        Player::new(10, 15)
    }
}

impl Clone for Player {
    fn clone(&self) -> (copy: Player)
        ensures
            copy@ == self@,
    {
        let mut inventory: Vec<Item> = Vec::new();
        let mut i: usize = 0;
        while i < self.inventory.len()
            invariant
                i <= self.inventory@.len(),
                inventory@.len() == i,
                forall|j: int| 0 <= j < i ==> (#[trigger] inventory@[j])@ == self.inventory@[j]@,
            decreases self.inventory@.len() - i,
        {
            inventory.push(self.inventory[i].clone());
            i += 1;
        }
        let copy = Player {
            position: self.position,
            health: self.health,
            max_health: self.max_health,
            level: self.level,
            experience: self.experience,
            inventory,
        };
        assert(copy@.inventory =~= self@.inventory);
        copy
    }
}

} // verus!
