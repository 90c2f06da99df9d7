//! Win and loss conditions: the game modes.
//!
//! A mode says when the game is won and how the world is set up for it. In
//! every mode the game is lost when the player dies, and a dead player has
//! lost whatever else holds.

use crate::item::{
    count_kind, count_of, find_kind, has_kind, treasure_chest, Item, ItemType, ItemView,
};
use crate::npc::{NPCType, NpcView, NPC};
use crate::placement::{
    fair_candidates, fair_rounds, find_random_position, search_outcome, spots_found, taken_by,
};
use crate::player::{Player, PlayerView};
use crate::state::{GameState, GameStateView};
use crate::text::{append_nat, nat_text};
use crate::world::{GameWorld, WorldItem, WorldView};
use vstd::prelude::*;

verus! {

/// How the game stands.
#[derive(Debug, Clone, Copy, PartialEq, Eq, Structural)]
pub enum GameStatus {
    Playing,
    Won,
    Lost,
}

/// The tile on which the player starts unless the mode places them elsewhere.
pub open spec fn start_position() -> (i32, i32) {
    (10, 15)
}

/// The mathematical value of a game mode.
pub enum ConditionView {
    /// Won by carrying a treasure.
    TreasureHunt,
    /// Won once the log holds `target_turns` entries.
    Survival { target_turns: u32 },
    /// Won by carrying, for each pair, at least that many items of that kind.
    Collection { required_items: Seq<(ItemType, u32)> },
}

/// A creature as it is first placed: nothing carried.
pub open spec fn placed_npc(position: (i32, i32), npc_type: NPCType, name: Seq<char>) -> NpcView {
    NpcView { position, inventory: Seq::empty(), npc_type, name }
}

/// The creatures of a treasure hunt.
pub open spec fn treasure_hunt_cast() -> Seq<NpcView> {
    seq![
        placed_npc((5, 5), NPCType::Goblin, "Grob"@),
        placed_npc((15, 8), NPCType::Merchant, "The Merchant"@),
        placed_npc((25, 12), NPCType::Skeleton, "Bonecrusher"@),
        placed_npc((8, 20), NPCType::Guard, "Guard Captain"@),
        placed_npc((30, 25), NPCType::Orc, "Orc Warrior"@),
    ]
}

/// The tile on which the chest of a treasure hunt lies.
pub open spec fn chest_position() -> (i32, i32) {
    (35, 18)
}

/// The creatures of a collection game.
pub open spec fn collection_cast() -> Seq<NpcView> {
    seq![
        placed_npc((25, 15), NPCType::Merchant, "The Wandering Merchant"@),
        placed_npc((5, 5), NPCType::Goblin, "Snitch"@),
        placed_npc((40, 20), NPCType::Guard, "Tower Guard"@),
        placed_npc((15, 25), NPCType::Orc, "Grum the Collector"@),
    ]
}

/// The number of orcs that a survival game tries to place.
pub open spec fn horde_size() -> int {
    5
}

/// The name of the `i`-th orc of a survival game.
pub open spec fn orc_name(i: int) -> Seq<char> {
    if i == 0 {
        "Urg the Destroyer"@
    } else if i == 1 {
        "Grok the Fierce"@
    } else if i == 2 {
        "Morg the Brutal"@
    } else if i == 3 {
        "Thok the Savage"@
    } else {
        "Vrak the Terrible"@
    }
}

/// The player of a survival game: on the first spot if one was found, else on
/// the usual starting tile.
pub open spec fn survival_player(player: PlayerView, spots: Seq<Option<(i32, i32)>>) -> PlayerView {
    match spots[0] {
        Some(p) => player.moved_to(p),
        None => player.moved_to(start_position()),
    }
}

/// The creatures of a survival game after the first `count` orcs had their
/// turn to be placed: orc `i` stands on spot `i + 1` if one was found, and is
/// left out otherwise.
pub open spec fn with_horde(
    npcs: Seq<NpcView>,
    spots: Seq<Option<(i32, i32)>>,
    count: int,
) -> Seq<NpcView>
    decreases count,
{
    if count <= 0 {
        npcs
    } else {
        let before = with_horde(npcs, spots, count - 1);
        match spots[count] {
            Some(p) => before.push(placed_npc(p, NPCType::Orc, orc_name(count - 1))),
            None => before,
        }
    }
}

/// Whether `inventory` holds as many items of a kind as `required` asks for.
pub open spec fn requirement_met(inventory: Seq<ItemView>, required: (ItemType, u32)) -> bool {
    count_of(inventory, required.0) >= required.1
}

/// Whether `inventory` meets every requirement of `required_items`.
pub open spec fn requirements_met(
    inventory: Seq<ItemView>,
    required_items: Seq<(ItemType, u32)>,
) -> bool {
    forall|i: int|
        0 <= i < required_items.len() ==> requirement_met(inventory, #[trigger] required_items[i])
}

impl ConditionView {
    /// The mode's own win predicate, without regard to the player's health.
    pub open spec fn win_predicate(self, state: GameStateView) -> bool {
        match self {
            ConditionView::TreasureHunt => has_kind(state.player.inventory, ItemType::Treasure),
            ConditionView::Survival { target_turns } => state.log_messages.len() >= target_turns,
            ConditionView::Collection { required_items } => requirements_met(
                state.player.inventory,
                required_items,
            ),
        }
    }

    /// How the game stands in `state`: lost if the player is dead, else won if
    /// the mode's win predicate holds, else still being played.
    pub open spec fn status(self, state: GameStateView) -> GameStatus {
        if !state.player.is_alive() {
            GameStatus::Lost
        } else if self.win_predicate(state) {
            GameStatus::Won
        } else {
            GameStatus::Playing
        }
    }

    /// The goal, as shown to the player.
    pub open spec fn win_text(self) -> Seq<char> {
        match self {
            ConditionView::TreasureHunt => "Find and collect the treasure!"@,
            ConditionView::Survival { target_turns } => "Survive for "@ + nat_text(
                target_turns as nat,
            ) + " turns!"@,
            ConditionView::Collection { .. } => "Collect all required items!"@,
        }
    }

    /// The warning, as shown to the player.
    pub open spec fn loss_text(self) -> Seq<char> {
        "Don't let your health reach zero!"@
    }

    /// The message shown when the game is won.
    pub open spec fn victory_text(self) -> Seq<char> {
        match self {
            ConditionView::TreasureHunt => "Congratulations! You have found the treasure and escaped the dungeon!"@,
            ConditionView::Survival { .. } => "Amazing! You have survived the required number of turns and proven your resilience!"@,
            ConditionView::Collection { .. } => "Excellent! You have collected all the required items and completed your quest!"@,
        }
    }

    /// Whether the mode's setup may turn `world`, `npcs` and `player` into
    /// `new_world`, `new_npcs` and `new_player`.
    ///
    /// A treasure hunt and a collection game have one setup each. A survival
    /// game places the player and its orcs by chance, with one placement
    /// search for each: its setups are those that the six searches give for
    /// some candidates that they can roll.
    pub open spec fn sets_up(
        self,
        world: WorldView,
        npcs: Seq<NpcView>,
        player: PlayerView,
        new_world: WorldView,
        new_npcs: Seq<NpcView>,
        new_player: PlayerView,
    ) -> bool {
        match self {
            ConditionView::TreasureHunt => {
                &&& new_world == world.with_item(chest_position(), treasure_chest())
                &&& new_npcs == npcs + treasure_hunt_cast()
                &&& new_player == player.moved_to(start_position())
            },
            ConditionView::Survival { .. } => {
                &&& new_world == world
                &&& exists|rounds: Seq<Seq<(i32, i32)>>|
                    {
                        &&& rounds.len() == horde_size() + 1
                        &&& fair_rounds(world, rounds)
                        &&& new_player == survival_player(
                            player,
                            #[trigger] spots_found(world, rounds),
                        )
                        &&& new_npcs == with_horde(npcs, spots_found(world, rounds), horde_size())
                    }
            },
            ConditionView::Collection { .. } => {
                &&& new_world == world
                &&& new_npcs == npcs + collection_cast()
                &&& new_player == player.moved_to(start_position())
            },
        }
    }
}

/// A game mode: when the game is won, and how its world is set up.
pub trait GameCondition {
    /// The mathematical value of this mode.
    spec fn model(&self) -> ConditionView;

    /// How the game stands. A dead player has lost, whatever the mode's win
    /// predicate says.
    fn check_status(&self, game_state: &GameState) -> (status: GameStatus)
        ensures
            status == self.model().status(game_state@),
            !game_state@.player.is_alive() ==> status == GameStatus::Lost,
    ;

    /// The goal, as shown to the player.
    fn win_description(&self) -> (text: String)
        ensures
            text@ == self.model().win_text(),
    ;

    /// The warning, as shown to the player.
    fn loss_description(&self) -> (text: &str)
        ensures
            text@ == self.model().loss_text(),
    ;

    /// The message shown when the game is won.
    fn victory_message(&self) -> (text: &str)
        ensures
            text@ == self.model().victory_text(),
    ;

    /// Places the mode's creatures and items and the player. This is called
    /// once, before the first turn.
    fn setup_world(&self, world: &mut GameWorld, npcs: &mut Vec<NPC>, player: &mut Player)
        requires
            old(world).wf(),
            old(player).wf(),
        ensures
            self.model().sets_up(
                old(world)@,
                old(npcs).deep_view(),
                old(player)@,
                final(world)@,
                final(npcs).deep_view(),
                final(player)@,
            ),
            final(world).wf(),
            final(player).wf(),
    ;
}

/// The treasure hunt: find the chest, find a key, carry the treasure.
#[derive(Debug, Clone, Copy)]
pub struct TreasureHuntCondition;

impl View for TreasureHuntCondition {
    type V = ConditionView;

    open spec fn view(&self) -> ConditionView {
        ConditionView::TreasureHunt
    }
}

impl GameCondition for TreasureHuntCondition {
    open spec fn model(&self) -> ConditionView {
        self@
    }

    fn check_status(&self, game_state: &GameState) -> (status: GameStatus) {
        if !game_state.player.is_alive() {
            return GameStatus::Lost;
        }
        if find_kind(&game_state.player.inventory, ItemType::Treasure).is_some() {
            return GameStatus::Won;
        }
        GameStatus::Playing
    }

    fn win_description(&self) -> (text: String) {
        String::from_str("Find and collect the treasure!")
    }

    fn loss_description(&self) -> (text: &str) {
        "Don't let your health reach zero!"
    }

    fn victory_message(&self) -> (text: &str) {
        "Congratulations! You have found the treasure and escaped the dungeon!"
    }

    fn setup_world(&self, world: &mut GameWorld, npcs: &mut Vec<NPC>, player: &mut Player) {
        let ghost before = world@;
        let ghost cast_before = npcs.deep_view();
        npcs.push(NPC::new(5, 5, NPCType::Goblin, String::from_str("Grob")));
        npcs.push(NPC::new(15, 8, NPCType::Merchant, String::from_str("The Merchant")));
        npcs.push(NPC::new(25, 12, NPCType::Skeleton, String::from_str("Bonecrusher")));
        npcs.push(NPC::new(8, 20, NPCType::Guard, String::from_str("Guard Captain")));
        npcs.push(NPC::new(30, 25, NPCType::Orc, String::from_str("Orc Warrior")));
        world.items.push(WorldItem::new(35, 18, Item::treasure_chest()));
        player.position = (10, 15);
        assert(npcs.deep_view() =~= cast_before + treasure_hunt_cast());
        assert(world@.items =~= before.with_item(chest_position(), treasure_chest()).items);
        assert(world@.tiles =~= before.tiles);
    }
}

/// The survival game: stay alive among five orcs until enough has been logged.
#[derive(Debug, Clone, Copy)]
pub struct SurvivalCondition {
    pub target_turns: u32,
}

/// The name of the `i`-th orc of a survival game.
fn horde_name(i: usize) -> (name: String)
    ensures
        name@ == orc_name(i as int),
{
    if i == 0 {
        String::from_str("Urg the Destroyer")
    } else if i == 1 {
        String::from_str("Grok the Fierce")
    } else if i == 2 {
        String::from_str("Morg the Brutal")
    } else if i == 3 {
        String::from_str("Thok the Savage")
    } else {
        String::from_str("Vrak the Terrible")
    }
}

impl SurvivalCondition {
    pub fn new(target_turns: u32) -> (condition: SurvivalCondition)
        ensures
            condition.target_turns == target_turns,
            condition@ == (ConditionView::Survival { target_turns }),
    {
        SurvivalCondition { target_turns }
    }

    /// Puts the player and the orcs on the spots that the six placement
    /// searches gave: the player on the first, or on the usual starting tile
    /// if the search failed, and each orc on its own, or nowhere.
    pub fn populate(
        &self,
        npcs: &mut Vec<NPC>,
        player: &mut Player,
        spots: &[Option<(i32, i32)>; 6],
    )
        ensures
            final(player)@ == survival_player(old(player)@, spots@),
            final(npcs).deep_view() == with_horde(old(npcs).deep_view(), spots@, horde_size()),
    {
        match spots[0] {
            Some(p) => {
                player.position = p;
            },
            None => {
                player.position = (10, 15);
            },
        }
        let mut i: usize = 0;
        while i < 5
            invariant
                i <= 5,
                npcs.deep_view() == with_horde(old(npcs).deep_view(), spots@, i as int),
            decreases 5 - i,
        {
            let ghost before = npcs.deep_view();
            match spots[i + 1] {
                Some(p) => {
                    npcs.push(NPC::new(p.0, p.1, NPCType::Orc, horde_name(i)));
                    assert(npcs.deep_view() =~= before.push(
                        placed_npc(p, NPCType::Orc, orc_name(i as int)),
                    ));
                },
                None => {},
            }
            i += 1;
        }
    }
}

impl View for SurvivalCondition {
    type V = ConditionView;

    open spec fn view(&self) -> ConditionView {
        ConditionView::Survival { target_turns: self.target_turns }
    }
}

impl GameCondition for SurvivalCondition {
    open spec fn model(&self) -> ConditionView {
        self@
    }

    fn check_status(&self, game_state: &GameState) -> (status: GameStatus) {
        if !game_state.player.is_alive() {
            return GameStatus::Lost;
        }
        if game_state.log_messages.len() >= self.target_turns as usize {
            return GameStatus::Won;
        }
        GameStatus::Playing
    }

    fn win_description(&self) -> (text: String) {
        let mut text = String::from_str("Survive for ");
        append_nat(&mut text, self.target_turns as u64);
        text.append(" turns!");
        text
    }

    fn loss_description(&self) -> (text: &str) {
        "Don't let your health reach zero!"
    }

    fn victory_message(&self) -> (text: &str) {
        "Amazing! You have survived the required number of turns and proven your resilience!"
    }

    fn setup_world(&self, world: &mut GameWorld, npcs: &mut Vec<NPC>, player: &mut Player) {
        let mut taken: Vec<(i32, i32)> = Vec::new();
        let mut found_spots: [Option<(i32, i32)>; 6] = [None, None, None, None, None, None];
        let ghost mut rounds: Seq<Seq<(i32, i32)>> = Seq::empty();
        let mut k: usize = 0;
        while k < 6
            invariant
                k <= 6,
                world.wf(),
                *world == *old(world),
                rounds.len() == k,
                fair_rounds(world@, rounds),
                spots_found(world@, rounds).len() == k,
                forall|j: int| 0 <= j < k ==> found_spots@[j] == spots_found(world@, rounds)[j],
                taken@ == taken_by(spots_found(world@, rounds)),
            decreases 6 - k,
        {
            let ghost before = spots_found(world@, rounds);
            let ghost taken_before = taken@;
            let found = find_random_position(world, &mut taken);
            found_spots[k] = found;
            proof {
                let candidates = choose|candidates: Seq<(i32, i32)>|
                    {
                        &&& #[trigger] fair_candidates(world@, candidates)
                        &&& found == search_outcome(world@, taken_before, candidates)
                    };
                let longer = rounds.push(candidates);
                assert(longer.drop_last() =~= rounds);
                assert(longer.last() == candidates);
                let after = spots_found(world@, longer);
                assert(after == before.push(found));
                assert(after.drop_last() =~= before);
                assert(taken@ == taken_by(after));
                rounds = longer;
            }
            k += 1;
        }
        assert(found_spots@ =~= spots_found(world@, rounds));
        self.populate(npcs, player, &found_spots);
    }
}

/// The collection game: gather the required number of items of each kind.
#[derive(Debug)]
pub struct CollectionCondition {
    /// Each kind of item with the number of it that must be carried.
    pub required_items: Vec<(ItemType, u32)>,
}

impl CollectionCondition {
    pub fn new(required_items: Vec<(ItemType, u32)>) -> (condition: CollectionCondition)
        ensures
            condition.required_items == required_items,
            condition@ == (ConditionView::Collection { required_items: required_items@ }),
    {
        CollectionCondition { required_items }
    }
}

impl View for CollectionCondition {
    type V = ConditionView;

    open spec fn view(&self) -> ConditionView {
        ConditionView::Collection { required_items: self.required_items@ }
    }
}

impl GameCondition for CollectionCondition {
    open spec fn model(&self) -> ConditionView {
        self@
    }

    fn check_status(&self, game_state: &GameState) -> (status: GameStatus) {
        if !game_state.player.is_alive() {
            return GameStatus::Lost;
        }
        let mut i: usize = 0;
        while i < self.required_items.len()
            invariant
                i <= self.required_items@.len(),
                game_state@.player.is_alive(),
                forall|j: int|
                    0 <= j < i ==> requirement_met(
                        game_state@.player.inventory,
                        #[trigger] self.required_items@[j],
                    ),
            decreases self.required_items@.len() - i,
        {
            let required_type = self.required_items[i].0;
            let required_count = self.required_items[i].1;
            let collected_count = count_kind(&game_state.player.inventory, required_type);
            if collected_count < required_count as usize {
                assert(!requirement_met(
                    game_state@.player.inventory,
                    self.required_items@[i as int],
                ));
                assert(!requirements_met(game_state@.player.inventory, self.required_items@));
                return GameStatus::Playing;
            }
            assert(requirement_met(game_state@.player.inventory, self.required_items@[i as int]));
            i += 1;
        }
        assert(requirements_met(game_state@.player.inventory, self.required_items@));
        GameStatus::Won
    }

    fn win_description(&self) -> (text: String) {
        String::from_str("Collect all required items!")
    }

    fn loss_description(&self) -> (text: &str) {
        "Don't let your health reach zero!"
    }

    fn victory_message(&self) -> (text: &str) {
        "Excellent! You have collected all the required items and completed your quest!"
    }

    fn setup_world(&self, world: &mut GameWorld, npcs: &mut Vec<NPC>, player: &mut Player) {
        let ghost cast_before = npcs.deep_view();
        npcs.push(NPC::new(25, 15, NPCType::Merchant, String::from_str("The Wandering Merchant")));
        npcs.push(NPC::new(5, 5, NPCType::Goblin, String::from_str("Snitch")));
        npcs.push(NPC::new(40, 20, NPCType::Guard, String::from_str("Tower Guard")));
        npcs.push(NPC::new(15, 25, NPCType::Orc, String::from_str("Grum the Collector")));
        player.position = (10, 15);
        assert(npcs.deep_view() =~= cast_before + collection_cast());
    }
}

/// The mode that a game is played in: one of the three.
#[derive(Debug)]
pub enum ActiveCondition {
    TreasureHunt(TreasureHuntCondition),
    Survival(SurvivalCondition),
    Collection(CollectionCondition),
}

impl View for ActiveCondition {
    type V = ConditionView;

    open spec fn view(&self) -> ConditionView {
        match self {
            ActiveCondition::TreasureHunt(condition) => condition@,
            ActiveCondition::Survival(condition) => condition@,
            ActiveCondition::Collection(condition) => condition@,
        }
    }
}

impl GameCondition for ActiveCondition {
    open spec fn model(&self) -> ConditionView {
        self@
    }

    fn check_status(&self, game_state: &GameState) -> (status: GameStatus) {
        match self {
            ActiveCondition::TreasureHunt(condition) => condition.check_status(game_state),
            ActiveCondition::Survival(condition) => condition.check_status(game_state),
            ActiveCondition::Collection(condition) => condition.check_status(game_state),
        }
    }

    fn win_description(&self) -> (text: String) {
        match self {
            ActiveCondition::TreasureHunt(condition) => condition.win_description(),
            ActiveCondition::Survival(condition) => condition.win_description(),
            ActiveCondition::Collection(condition) => condition.win_description(),
        }
    }

    fn loss_description(&self) -> (text: &str) {
        match self {
            ActiveCondition::TreasureHunt(condition) => condition.loss_description(),
            ActiveCondition::Survival(condition) => condition.loss_description(),
            ActiveCondition::Collection(condition) => condition.loss_description(),
        }
    }

    fn victory_message(&self) -> (text: &str) {
        match self {
            ActiveCondition::TreasureHunt(condition) => condition.victory_message(),
            ActiveCondition::Survival(condition) => condition.victory_message(),
            ActiveCondition::Collection(condition) => condition.victory_message(),
        }
    }

    fn setup_world(&self, world: &mut GameWorld, npcs: &mut Vec<NPC>, player: &mut Player) {
        match self {
            ActiveCondition::TreasureHunt(condition) => condition.setup_world(world, npcs, player),
            ActiveCondition::Survival(condition) => condition.setup_world(world, npcs, player),
            ActiveCondition::Collection(condition) => condition.setup_world(world, npcs, player),
        }
    }
}

} // verus!
