//! The game state and the player's actions on it.
//!
//! Each action is a spec function from the state before, and the dice where
//! chance is involved, to the state after; the executable function is proved
//! to compute it.

use crate::dice::{roll, TurnRolls, MAX_DAMAGE, MIN_DAMAGE};
use crate::game_condition::{
    ActiveCondition, ConditionView, GameCondition, GameStatus, TreasureHuntCondition,
};
use crate::item::{
    bone_key, find_kind, first_of_kind, pile_of_treasure, Item, ItemType, ItemUseResult,
    ItemUseResultView, ItemView,
};
use crate::messages;
use crate::messages::{
    attack_text, blocked_text, goblin_text, interact_text, moved_text, no_chest_text,
    no_effect_text, nothing_here_text, pickup_text, skeleton_text, unlock_text, welcome_log,
};
use crate::npc::{
    npc_at, npc_turn, stands_at, InteractionResult, InteractionResultView, NPCType, NpcView, NPC,
};
use crate::player::{Player, PlayerView};
use crate::scan::{is_first_where, lemma_first_where_found, lemma_first_where_none};
use crate::world::{item_at, simple_room, GameWorld, WorldItem, WorldItemView, WorldView};
use vstd::prelude::*;

verus! {

/// The greatest number of entries that the log keeps.
pub const LOG_CAPACITY: usize = 50;

/// Everything that makes up a game in progress.
#[derive(Debug)]
pub struct GameState {
    pub player: Player,
    pub world: GameWorld,
    /// The creatures in play. No order is kept: a creature that the player
    /// walks into goes to the end.
    pub npcs: Vec<NPC>,
    /// The log, oldest entry first.
    pub log_messages: Vec<String>,
    pub game_over: bool,
    /// The mode that decides when the game is won.
    pub condition: ActiveCondition,
}

/// The mathematical value of a [`GameState`].
pub struct GameStateView {
    pub player: PlayerView,
    pub world: WorldView,
    pub npcs: Seq<NpcView>,
    pub log_messages: Seq<Seq<char>>,
    pub game_over: bool,
    pub condition: ConditionView,
}

impl View for GameState {
    type V = GameStateView;

    open spec fn view(&self) -> GameStateView {
        GameStateView {
            player: self.player@,
            world: self.world@,
            npcs: self.npcs.deep_view(),
            log_messages: self.log_messages.deep_view(),
            game_over: self.game_over,
            condition: self.condition@,
        }
    }
}

/// `log` with `message` appended; when that makes more than fifty entries,
/// the oldest is dropped.
pub open spec fn log_append(log: Seq<Seq<char>>, message: Seq<char>) -> Seq<Seq<char>> {
    let longer = log.push(message);
    if longer.len() > LOG_CAPACITY {
        longer.remove(0)
    } else {
        longer
    }
}

/// What walking into `npc` leaves behind: a skeleton leaves a bone key, every
/// other creature stays.
pub open spec fn interaction_result(npc: NpcView) -> InteractionResultView {
    match npc.npc_type {
        NPCType::Skeleton => InteractionResultView::Item(bone_key()),
        _ => InteractionResultView::NPC(npc),
    }
}

/// `items` as they lie once dropped on `tile`.
pub open spec fn dropped_on(items: Seq<ItemView>, tile: (i32, i32)) -> Seq<WorldItemView> {
    Seq::new(items.len(), |i: int| WorldItemView { position: tile, item: items[i] })
}

impl GameStateView {
    /// The player and the world are well formed and the log holds no more
    /// than fifty entries.
    pub open spec fn wf(self) -> bool {
        &&& self.player.wf()
        &&& self.world.wf()
        &&& self.log_messages.len() <= LOG_CAPACITY
    }

    /// This state with `message` logged.
    pub open spec fn logged(self, message: Seq<char>) -> GameStateView {
        GameStateView { log_messages: log_append(self.log_messages, message), ..self }
    }

    /// This state with each of `messages` logged, in order.
    pub open spec fn logged_all(self, messages: Seq<Seq<char>>) -> GameStateView
        decreases messages.len(),
    {
        if messages.len() == 0 {
            self
        } else {
            self.logged(messages[0]).logged_all(messages.drop_first())
        }
    }

    /// The state after the player has walked into `npc`, which was taken out
    /// of play for the encounter. A skeleton collapses; an orc strikes for
    /// `damage`; a goblin and the others only leave a message.
    pub open spec fn after_interaction(self, npc: NpcView, damage: int) -> GameStateView {
        match npc.npc_type {
            NPCType::Skeleton => self.logged(skeleton_text()),
            NPCType::Orc => GameStateView { player: self.player.damaged(damage), ..self }.logged(
                attack_text(npc.name, damage),
            ),
            NPCType::Goblin => self.logged(goblin_text()),
            _ => self.logged(interact_text(npc.name)),
        }
    }

    /// This state once what an encounter at `tile` left behind is put back: a
    /// creature rejoins the others at the end, an item is laid on the tile.
    pub open spec fn settled(self, result: InteractionResultView, tile: (i32, i32)) -> GameStateView {
        match result {
            InteractionResultView::Nothing => self,
            InteractionResultView::NPC(npc) => GameStateView { npcs: self.npcs.push(npc), ..self },
            InteractionResultView::Item(item) => GameStateView {
                world: self.world.with_item(tile, item),
                ..self
            },
        }
    }

    /// Whether a step by `(dx, dy)` moves the player: the target tile can be
    /// entered and no creature stands on it.
    pub open spec fn move_succeeds(self, dx: int, dy: int) -> bool {
        let x = self.player.position.0 + dx;
        let y = self.player.position.1 + dy;
        self.world.enterable(x, y) && npc_at(self.npcs, (x as i32, y as i32)) is None
    }

    /// The state after the player tries a step by `(dx, dy)`.
    ///
    /// Where the target tile cannot be entered, only a message is logged.
    /// Where a creature stands on it, the player stays and meets the first
    /// such creature, which strikes for `damage` if it is an orc. Otherwise
    /// the player moves there.
    pub open spec fn after_move(self, dx: int, dy: int, damage: int) -> GameStateView {
        let x = self.player.position.0 + dx;
        let y = self.player.position.1 + dy;
        if !self.world.enterable(x, y) {
            self.logged(blocked_text())
        } else {
            let target = (x as i32, y as i32);
            match npc_at(self.npcs, target) {
                Some(i) => {
                    let npc = self.npcs[i];
                    GameStateView { npcs: self.npcs.remove(i), ..self }.after_interaction(
                        npc,
                        damage,
                    ).settled(interaction_result(npc), target)
                },
                None => GameStateView { player: self.player.moved_to(target), ..self }.logged(
                    moved_text(x, y),
                ),
            }
        }
    }

    /// The state after the player tries to pick up what lies under them: the
    /// first item on their tile goes to the end of the inventory.
    pub open spec fn after_pickup(self) -> GameStateView {
        match item_at(self.world.items, self.player.position) {
            Some(i) => GameStateView {
                world: self.world.without_item(i),
                player: self.player.with_item(self.world.items[i].item),
                ..self
            }.logged(pickup_text(self.world.items[i].item.label)),
            None => self.logged(nothing_here_text()),
        }
    }

    /// The state after the player has used `item`, which is no longer in the
    /// inventory. A key opens the first chest carried: the chest goes and a
    /// pile of treasure lies where the player stands. Anything else, and a
    /// key without a chest, only leaves a message. The item is used up.
    pub open spec fn after_use(self, item: ItemView) -> GameStateView {
        match item.item_type {
            ItemType::Key => match first_of_kind(self.player.inventory, ItemType::TreasureChest) {
                Some(i) => GameStateView {
                    player: self.player.without_item(i),
                    world: self.world.with_item(self.player.position, pile_of_treasure()),
                    ..self
                }.logged(unlock_text()),
                None => self.logged(no_chest_text(item.label)),
            },
            _ => self.logged(no_effect_text(item.label)),
        }
    }

    /// This state once what the use of an item handed back is put in place:
    /// the item to keep goes to the end of the inventory, and the items to
    /// drop lie where the player stands.
    pub open spec fn with_use_result(self, result: ItemUseResultView) -> GameStateView {
        GameStateView {
            player: match result.returned_to_inventory {
                Some(item) => self.player.with_item(item),
                None => self.player,
            },
            world: WorldView {
                items: self.world.items + dropped_on(
                    result.dropped_on_ground,
                    self.player.position,
                ),
                ..self.world
            },
            ..self
        }
    }

    /// The state after the player has taken the item at index `index` out of
    /// the inventory and used it, before the creatures answer. Without such
    /// an item nothing happens.
    pub open spec fn after_inventory_use(self, index: int) -> GameStateView {
        if 0 <= index < self.player.inventory.len() {
            GameStateView { player: self.player.without_item(index), ..self }.after_use(
                self.player.inventory[index],
            )
        } else {
            self
        }
    }

    /// The state after all creatures have played their turns, creature `i`
    /// with `rolls[i]`.
    pub open spec fn after_all_npc_turns(self, rolls: Seq<TurnRolls>) -> GameStateView {
        self.after_npc_turns(rolls, self.npcs.len() as int)
    }

    /// The state after the creature at index `i` has played its turn with
    /// `rolls`, all other creatures being in its way.
    pub open spec fn after_npc_turn(self, i: int, rolls: TurnRolls) -> GameStateView {
        if 0 <= i < self.npcs.len() {
            let outcome = npc_turn(
                self.npcs[i],
                self.world,
                self.player,
                self.npcs.remove(i),
                rolls,
            );
            GameStateView {
                npcs: self.npcs.update(i, outcome.npc),
                world: outcome.world,
                player: outcome.player,
                ..self
            }.logged_all(outcome.messages)
        } else {
            self
        }
    }

    /// The state after the first `count` creatures have played their turns,
    /// one after the other, creature `i` with `rolls[i]`.
    pub open spec fn after_npc_turns(self, rolls: Seq<TurnRolls>, count: int) -> GameStateView
        decreases count,
    {
        if count <= 0 {
            self
        } else {
            self.after_npc_turns(rolls, count - 1).after_npc_turn(count - 1, rolls[count - 1])
        }
    }

    /// How the game stands, by the mode it is played in.
    pub open spec fn status(self) -> GameStatus {
        self.condition.status(self)
    }
}

/// Logging changes nothing but the log.
pub proof fn lemma_logging_changes_only_the_log(state: GameStateView, messages: Seq<Seq<char>>)
    ensures
        state.logged_all(messages) == (GameStateView {
            log_messages: state.logged_all(messages).log_messages,
            ..state
        }),
    decreases messages.len(),
{
    if messages.len() > 0 {
        lemma_logging_changes_only_the_log(state.logged(messages[0]), messages.drop_first());
    }
}

/// The creatures' turns neither add nor remove a creature.
pub proof fn lemma_npc_turns_keep_the_count(state: GameStateView, rolls: Seq<TurnRolls>, count: int)
    ensures
        state.after_npc_turns(rolls, count).npcs.len() == state.npcs.len(),
    decreases count,
{
    if count > 0 {
        lemma_npc_turns_keep_the_count(state, rolls, count - 1);
        let before = state.after_npc_turns(rolls, count - 1);
        let i = count - 1;
        if 0 <= i < before.npcs.len() {
            let outcome = npc_turn(
                before.npcs[i],
                before.world,
                before.player,
                before.npcs.remove(i),
                rolls[i],
            );
            lemma_logging_changes_only_the_log(
                GameStateView {
                    npcs: before.npcs.update(i, outcome.npc),
                    world: outcome.world,
                    player: outcome.player,
                    ..before
                },
                outcome.messages,
            );
        }
    }
}

/// The state in which a game of mode `condition` starts, before the mode has
/// set up its world: a fresh player on the usual tile, the plain room of 50
/// by 30 tiles, nobody in it, and the welcome in the log.
pub open spec fn blank_state(condition: ConditionView) -> GameStateView {
    GameStateView {
        player: PlayerView::fresh((10, 15)),
        world: WorldView {
            size: (50, 30),
            current_floor: 1,
            tiles: simple_room(50, 30),
            items: Seq::empty(),
        },
        npcs: Seq::empty(),
        log_messages: welcome_log(),
        game_over: false,
        condition,
    }
}

/// Whether `state` can be the start of a game of its mode: the blank state
/// with the mode's setup applied.
pub open spec fn is_initial(state: GameStateView) -> bool {
    let blank = blank_state(state.condition);
    &&& state.condition.sets_up(
        blank.world,
        blank.npcs,
        blank.player,
        state.world,
        state.npcs,
        state.player,
    )
    &&& state.log_messages == blank.log_messages
    &&& state.game_over == blank.game_over
}

impl GameState {
    /// The player and the world are well formed and the log holds no more
    /// than fifty entries.
    pub open spec fn wf(&self) -> bool {
        self@.wf()
    }

    /// Whether the player and the world are well formed and the log holds no
    /// more than fifty entries.
    pub fn is_well_formed(&self) -> (well_formed: bool)
        ensures
            well_formed == self.wf(),
    {
        self.player.is_well_formed() && self.world.is_well_formed() && self.log_messages.len()
            <= LOG_CAPACITY
    }

    /// Starts a treasure hunt.
    pub fn new() -> (state: GameState)
        ensures
            state@.condition == ConditionView::TreasureHunt,
            is_initial(state@),
            state.wf(),
    {
        GameState::with_condition(ActiveCondition::TreasureHunt(TreasureHuntCondition))
    }

    /// Starts a game of the mode `condition`.
    pub fn with_condition(condition: ActiveCondition) -> (state: GameState)
        ensures
            state@.condition == condition@,
            is_initial(state@),
            state.wf(),
    {
        let mut player = Player::new(10, 15);
        let mut world = GameWorld::new(50, 30);
        let mut npcs: Vec<NPC> = Vec::new();
        assert(npcs.deep_view() =~= Seq::empty());
        condition.setup_world(&mut world, &mut npcs, &mut player);
        let mut log_messages: Vec<String> = Vec::new();
        log_messages.push(String::from_str("Welcome to the dungeon!"));
        log_messages.push(String::from_str("Press arrow keys to move."));
        log_messages.push(String::from_str("Explore carefully..."));
        assert(log_messages.deep_view() =~= welcome_log());
        GameState { player, world, npcs, log_messages, game_over: false, condition }
    }

    /// Appends `message` to the log. The log keeps fifty entries: when it
    /// would grow beyond that, its oldest entry is dropped.
    pub fn add_log_message(&mut self, message: String)
        ensures
            final(self)@ == old(self)@.logged(message@),
            old(self).wf() ==> final(self).wf(),
            final(self)@.log_messages.len() <= vstd::math::max(
                old(self)@.log_messages.len() as int,
                LOG_CAPACITY as int,
            ),
    {
        let ghost before = self.log_messages.deep_view();
        self.log_messages.push(message);
        assert(self.log_messages.deep_view() =~= before.push(message@));
        if self.log_messages.len() > LOG_CAPACITY {
            self.log_messages.remove(0);
            assert(self.log_messages.deep_view() =~= before.push(message@).remove(0));
        }
    }

    /// Appends each of `messages` to the log, in order.
    pub fn add_log_messages(&mut self, messages: Vec<String>)
        ensures
            final(self)@ == old(self)@.logged_all(messages.deep_view()),
            old(self).wf() ==> final(self).wf(),
    {
        let mut messages = messages;
        let ghost all = messages.deep_view();
        while messages.len() > 0
            invariant
                old(self).wf() ==> self.wf(),
                self@.logged_all(messages.deep_view()) == old(self)@.logged_all(all),
            decreases messages@.len(),
        {
            let ghost rest = messages.deep_view();
            let message = messages.remove(0);
            assert(messages.deep_view() =~= rest.drop_first());
            assert(message@ == rest[0]);
            self.add_log_message(message);
        }
    }

    /// The index of the first creature that stands at `p`, if any does.
    pub fn find_npc_at(&self, p: (i32, i32)) -> (found: Option<usize>)
        ensures
            found matches Some(i) ==> npc_at(self@.npcs, p) == Some(i as int) && i
                < self.npcs@.len(),
            found is None ==> npc_at(self@.npcs, p) is None,
    {
        let mut i: usize = 0;
        while i < self.npcs.len()
            invariant
                i <= self.npcs@.len(),
                forall|j: int| 0 <= j < i ==> !stands_at(p)(#[trigger] self@.npcs[j]),
            decreases self.npcs@.len() - i,
        {
            if self.npcs[i].position.0 == p.0 && self.npcs[i].position.1 == p.1 {
                proof {
                    assert(self@.npcs[i as int] == self.npcs@[i as int]@);
                    assert(is_first_where(self@.npcs, stands_at(p), i as int));
                    lemma_first_where_found(self@.npcs, stands_at(p), i as int);
                }
                return Some(i);
            }
            assert(self@.npcs[i as int] == self.npcs@[i as int]@);
            i += 1;
        }
        proof {
            lemma_first_where_none(self@.npcs, stands_at(p));
        }
        None
    }

    /// Resolves the player's walking into `npc`, which has been taken out of
    /// play, with `damage` as the strength of an orc's blow. Returns what the
    /// encounter leaves behind.
    pub fn resolve_interaction(&mut self, npc: NPC, damage: i32) -> (result: InteractionResult)
        requires
            old(self).wf(),
        ensures
            final(self)@ == old(self)@.after_interaction(npc@, damage as int),
            result@ == interaction_result(npc@),
            final(self).wf(),
    {
        match npc.npc_type {
            NPCType::Skeleton => {
                self.add_log_message(messages::skeleton());
                InteractionResult::Item(Item::bone_key())
            },
            NPCType::Orc => {
                self.player.take_damage(damage);
                self.add_log_message(messages::attack(&npc.name, damage));
                InteractionResult::NPC(npc)
            },
            NPCType::Goblin => {
                self.add_log_message(messages::goblin());
                InteractionResult::NPC(npc)
            },
            _ => {
                self.add_log_message(messages::interact(&npc.name));
                InteractionResult::NPC(npc)
            },
        }
    }

    /// Resolves the player's walking into `npc`, which has been taken out of
    /// play. An orc strikes with a blow of 5 to 20, decided by the dice.
    /// Returns what the encounter leaves behind.
    pub fn interact_with_npc(&mut self, npc: NPC) -> (result: InteractionResult)
        requires
            old(self).wf(),
        ensures
            exists|damage: int|
                MIN_DAMAGE <= damage <= MAX_DAMAGE && final(self)@
                    == #[trigger] old(self)@.after_interaction(npc@, damage),
            result@ == interaction_result(npc@),
            final(self).wf(),
    {
        let damage = match npc.npc_type {
            NPCType::Orc => roll(MIN_DAMAGE, MAX_DAMAGE),
            _ => MIN_DAMAGE,
        };
        let result = self.resolve_interaction(npc, damage);
        assert(self@ == old(self)@.after_interaction(npc@, damage as int));
        result
    }

    /// Puts back what an encounter at `tile` left behind.
    pub fn settle(&mut self, result: InteractionResult, tile: (i32, i32))
        ensures
            final(self)@ == old(self)@.settled(result@, tile),
            old(self).wf() ==> final(self).wf(),
    {
        let ghost before = self@;
        match result {
            InteractionResult::Nothing => {},
            InteractionResult::NPC(npc) => {
                self.npcs.push(npc);
                assert(self@.npcs =~= before.npcs.push(npc@));
            },
            InteractionResult::Item(item) => {
                self.world.items.push(WorldItem::new(tile.0, tile.1, item));
                assert(self@.world.items =~= before.world.with_item(tile, item@).items);
                assert(self@.world.tiles =~= before.world.tiles);
            },
        }
    }

    /// Tries to move the player by `(dx, dy)` and says whether they moved.
    ///
    /// The player stays where they are when the target tile cannot be
    /// entered, and when a creature stands on it: then they meet that
    /// creature instead. An orc met this way strikes with a blow of 5 to 20,
    /// decided by the dice.
    pub fn try_move_player(&mut self, dx: i32, dy: i32) -> (moved: bool)
        requires
            old(self).wf(),
        ensures
            moved == old(self)@.move_succeeds(dx as int, dy as int),
            exists|damage: int|
                MIN_DAMAGE <= damage <= MAX_DAMAGE && final(self)@ == #[trigger] old(
                    self,
                )@.after_move(dx as int, dy as int, damage),
            !moved ==> final(self)@.player.position == old(self)@.player.position,
            final(self)@.player.health >= 0,
            final(self).wf(),
    {
        let x: i64 = self.player.position.0 as i64 + dx as i64;
        let y: i64 = self.player.position.1 as i64 + dy as i64;
        if !self.world.can_enter(x, y) {
            self.add_log_message(messages::blocked());
            assert(self@ == old(self)@.after_move(dx as int, dy as int, MIN_DAMAGE as int));
            return false;
        }
        let new_pos = (x as i32, y as i32);
        match self.find_npc_at(new_pos) {
            Some(npc_index) => {
                let ghost before = self@;
                let npc = self.npcs.remove(npc_index);
                assert(npc@ == before.npcs[npc_index as int]);
                assert(self@.npcs =~= before.npcs.remove(npc_index as int));
                let ghost met = self@;
                let result = self.interact_with_npc(npc);
                let ghost damage = choose|damage: int|
                    MIN_DAMAGE <= damage <= MAX_DAMAGE && self@
                        == #[trigger] met.after_interaction(npc@, damage);
                self.settle(result, new_pos);
                assert(self@ == old(self)@.after_move(dx as int, dy as int, damage));
                false
            },
            None => {
                self.player.move_to(new_pos);
                self.add_log_message(messages::moved(new_pos.0, new_pos.1));
                assert(self@ == old(self)@.after_move(dx as int, dy as int, MIN_DAMAGE as int));
                true
            },
        }
    }

    /// Picks up the first item that lies under the player, if there is one.
    pub fn try_pickup_item(&mut self)
        requires
            old(self).wf(),
        ensures
            final(self)@ == old(self)@.after_pickup(),
            final(self).wf(),
    {
        let ghost before = self@;
        let player_pos = self.player.position;
        match self.world.find_item_at(player_pos) {
            Some(item_index) => {
                let world_item = self.world.items.remove(item_index);
                let message = messages::pickup(&world_item.item.label);
                self.player.inventory.push(world_item.item);
                assert(world_item@ == before.world.items[item_index as int]);
                assert(self@.world.items =~= before.world.items.remove(item_index as int));
                assert(self@.world.tiles =~= before.world.tiles);
                assert(self@.player.inventory =~= before.player.inventory.push(
                    world_item@.item,
                ));
                self.add_log_message(message);
            },
            None => {
                self.add_log_message(messages::nothing_here());
            },
        }
    }

    /// Uses `item`, which the caller has taken out of the inventory. The item
    /// is used up: nothing is handed back and nothing is left to drop.
    pub fn use_item(&mut self, item: Item) -> (result: ItemUseResult)
        requires
            old(self).wf(),
        ensures
            final(self)@ == old(self)@.after_use(item@),
            result@.returned_to_inventory is None,
            result@.dropped_on_ground.len() == 0,
            final(self).wf(),
    {
        let ghost before = self@;
        match item.item_type {
            ItemType::Key => {
                match find_kind(&self.player.inventory, ItemType::TreasureChest) {
                    Some(chest_index) => {
                        let _chest = self.player.inventory.remove(chest_index);
                        assert(self@.player.inventory =~= before.player.inventory.remove(
                            chest_index as int,
                        ));
                        self.add_log_message(messages::unlock());
                        let treasure = Item::pile_of_treasure();
                        self.world.items.push(
                            WorldItem::new(self.player.position.0, self.player.position.1, treasure),
                        );
                        assert(self@.world.items =~= before.world.with_item(
                            before.player.position,
                            pile_of_treasure(),
                        ).items);
                        assert(self@.world.tiles =~= before.world.tiles);
                    },
                    None => {
                        self.add_log_message(messages::no_chest(&item.label));
                    },
                }
            },
            _ => {
                self.add_log_message(messages::no_effect(&item.label));
            },
        }
        let result = ItemUseResult { returned_to_inventory: None, dropped_on_ground: Vec::new() };
        assert(result@.dropped_on_ground =~= Seq::empty());
        result
    }

    /// Plays the turn of the creature at index `i` with the dice `rolls`, and
    /// logs what it did. All other creatures are in its way. Where there is
    /// no such creature, nothing happens.
    pub fn run_npc_turn(&mut self, i: usize, rolls: &TurnRolls)
        requires
            old(self).wf(),
        ensures
            final(self)@ == old(self)@.after_npc_turn(i as int, *rolls),
            final(self).wf(),
    {
        if i >= self.npcs.len() {
            return ;
        }
        let ghost before = self@;
        let mut npc = self.npcs.remove(i);
        assert(npc@ == before.npcs[i as int]);
        assert(self.npcs.deep_view() =~= before.npcs.remove(i as int));
        let others = self.npcs.as_slice();
        assert(others.deep_view() =~= before.npcs.remove(i as int));
        let log_messages = npc.act(&mut self.world, &mut self.player, others, rolls);
        self.npcs.insert(i, npc);
        assert(self@.npcs =~= before.npcs.update(i as int, npc@));
        self.add_log_messages(log_messages);
    }

    /// Plays the turns of the creatures one after the other, creature `i`
    /// with the dice `rolls[i]`. Creatures for which `rolls` holds no dice
    /// stand still.
    pub fn run_npc_turns(&mut self, rolls: &Vec<TurnRolls>)
        requires
            old(self).wf(),
        ensures
            final(self)@ == old(self)@.after_npc_turns(
                rolls@,
                vstd::math::min(old(self)@.npcs.len() as int, rolls@.len() as int),
            ),
            final(self).wf(),
    {
        let count = if self.npcs.len() < rolls.len() {
            self.npcs.len()
        } else {
            rolls.len()
        };
        let mut i: usize = 0;
        while i < count
            invariant
                i <= count,
                count <= rolls@.len(),
                count == vstd::math::min(old(self)@.npcs.len() as int, rolls@.len() as int),
                self.wf(),
                self@ == old(self)@.after_npc_turns(rolls@, i as int),
            decreases count - i,
        {
            self.run_npc_turn(i, &rolls[i]);
            i += 1;
        }
    }

    /// Plays the turns of all creatures, one after the other, each with
    /// freshly rolled dice. Whatever the dice show, the state afterwards is
    /// the one that [`GameStateView::after_npc_turns`] describes for them.
    pub fn process_npc_actions(&mut self)
        requires
            old(self).wf(),
        ensures
            exists|rolls: Seq<TurnRolls>|
                {
                    &&& rolls.len() == old(self)@.npcs.len()
                    &&& forall|i: int| 0 <= i < rolls.len() ==> (#[trigger] rolls[i]).valid()
                    &&& final(self)@ == #[trigger] old(self)@.after_npc_turns(
                        rolls,
                        rolls.len() as int,
                    )
                },
            final(self)@.npcs.len() == old(self)@.npcs.len(),
            final(self).wf(),
    {
        let mut rolls: Vec<TurnRolls> = Vec::new();
        let mut i: usize = 0;
        while i < self.npcs.len()
            invariant
                i <= self.npcs@.len(),
                rolls@.len() == i,
                forall|j: int| 0 <= j < i ==> (#[trigger] rolls@[j]).valid(),
            decreases self.npcs@.len() - i,
        {
            rolls.push(TurnRolls::draw());
            i += 1;
        }
        self.run_npc_turns(&rolls);
        assert(self@ == old(self)@.after_npc_turns(rolls@, rolls@.len() as int));
        proof {
            lemma_npc_turns_keep_the_count(old(self)@, rolls@, rolls@.len() as int);
        }
    }

    /// Puts in place what the use of an item handed back: the item to keep goes
    /// to the end of the inventory, and the items to drop lie where the player
    /// stands.
    pub fn apply_use_result(&mut self, result: ItemUseResult)
        ensures
            final(self)@ == old(self)@.with_use_result(result@),
            old(self).wf() ==> final(self).wf(),
    {
        let ghost before = self@;
        let ItemUseResult { returned_to_inventory, dropped_on_ground } = result;
        match returned_to_inventory {
            Some(item) => {
                self.player.inventory.push(item);
                assert(self@.player.inventory =~= before.player.inventory.push(item@));
            },
            None => {},
        }
        let ghost kept = self@;
        let ghost all = dropped_on_ground.deep_view();
        let mut dropped_on_ground = dropped_on_ground;
        while dropped_on_ground.len() > 0
            invariant
                self@ == (GameStateView {
                    world: WorldView { items: self@.world.items, ..kept.world },
                    ..kept
                }),
                self@.world.items + dropped_on(dropped_on_ground.deep_view(), kept.player.position)
                    == kept.world.items + dropped_on(all, kept.player.position),
            decreases dropped_on_ground@.len(),
        {
            let ghost rest = dropped_on_ground.deep_view();
            let ghost lying = self@.world.items;
            let item = dropped_on_ground.remove(0);
            assert(dropped_on_ground.deep_view() =~= rest.drop_first());
            assert(item@ == rest[0]);
            self.world.items.push(
                WorldItem::new(self.player.position.0, self.player.position.1, item),
            );
            assert(self@.world.items =~= lying.push(
                WorldItemView { position: kept.player.position, item: item@ },
            ));
            assert(self@.world.tiles =~= kept.world.tiles);
            assert(self@.world.items + dropped_on(
                dropped_on_ground.deep_view(),
                kept.player.position,
            ) =~= lying + dropped_on(rest, kept.player.position));
        }
        assert(self@.world.items =~= kept.world.items + dropped_on(all, kept.player.position));
    }

    /// Takes the item at index `index` out of the inventory and uses it, and
    /// then lets every creature play its turn with freshly rolled dice. Says
    /// whether there was such an item; without one nothing happens.
    pub fn use_inventory_item(&mut self, index: usize) -> (used: bool)
        requires
            old(self).wf(),
        ensures
            used == (index < old(self)@.player.inventory.len()),
            !used ==> final(self)@ == old(self)@,
            used ==> exists|rolls: Seq<TurnRolls>|
                {
                    &&& rolls.len() == final(self)@.npcs.len()
                    &&& forall|i: int| 0 <= i < rolls.len() ==> (#[trigger] rolls[i]).valid()
                    &&& final(self)@ == #[trigger] old(self)@.after_inventory_use(
                        index as int,
                    ).after_all_npc_turns(rolls)
                },
            final(self).wf(),
    {
        if index >= self.player.inventory.len() {
            return false;
        }
        let ghost before = self@;
        let item = self.player.inventory.remove(index);
        assert(item@ == before.player.inventory[index as int]);
        assert(self@.player.inventory =~= before.player.inventory.remove(index as int));
        let result = self.use_item(item);
        let ghost used = self@;
        self.apply_use_result(result);
        assert(self@.world.items =~= used.world.items);
        assert(self@ == before.after_inventory_use(index as int));
        self.process_npc_actions();
        proof {
            let rolls = choose|rolls: Seq<TurnRolls>|
                {
                    &&& rolls.len() == used.npcs.len()
                    &&& forall|i: int| 0 <= i < rolls.len() ==> (#[trigger] rolls[i]).valid()
                    &&& self@ == #[trigger] used.after_npc_turns(rolls, rolls.len() as int)
                };
            lemma_npc_turns_keep_the_count(used, rolls, rolls.len() as int);
            assert(self@ == before.after_inventory_use(index as int).after_all_npc_turns(rolls));
        }
        true
    }

    /// How the game stands, by the mode it is played in. A dead player has
    /// lost, whatever the mode's win predicate says.
    pub fn check_game_status(&self) -> (status: GameStatus)
        ensures
            status == self@.status(),
            !self@.player.is_alive() ==> status == GameStatus::Lost,
    {
        self.condition.check_status(self)
    }

    /// The goal of the mode, as shown to the player.
    pub fn get_win_description(&self) -> (text: String)
        ensures
            text@ == self@.condition.win_text(),
    {
        self.condition.win_description()
    }

    /// The message shown when the game is won.
    pub fn get_victory_message(&self) -> (text: &str)
        ensures
            text@ == self@.condition.victory_text(),
    {
        self.condition.victory_message()
    }
}

impl Default for GameState {
    /// A treasure hunt at its start.
    fn default() -> (state: GameState)
        ensures
            state@.condition == ConditionView::TreasureHunt,
            is_initial(state@),
            state.wf(),
    {
        GameState::new()
    }
}

} // verus!
