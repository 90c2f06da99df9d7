//! Creatures other than the player, and what each does on its own turn.

use crate::dice::TurnRolls;
use crate::item::{merchant_ware, ware_name, Item, ItemView};
use crate::messages;
use crate::messages::{crushed_text, dropped_text, orc_attack_text};
use crate::player::{Player, PlayerView};
use crate::scan::{any_where, first_where, is_first_where, lemma_first_where_found, lemma_first_where_none};
use crate::world::{item_at, GameWorld, WorldItem, WorldView};
use vstd::prelude::*;

verus! {

/// The kinds of creature.
#[derive(Debug, Clone, Copy, PartialEq, Eq, Structural)]
pub enum NPCType {
    Goblin,
    Orc,
    Skeleton,
    Merchant,
    Guard,
}

impl NPCType {
    /// The map glyph of a kind of creature.
    pub open spec fn glyph(self) -> char {
        match self {
            NPCType::Goblin => 'g',
            NPCType::Orc => 'O',
            NPCType::Skeleton => 'S',
            NPCType::Merchant => 'M',
            NPCType::Guard => 'G',
        }
    }

    /// The colour, as red, green and blue, in which a kind of creature is drawn.
    pub open spec fn color(self) -> (u8, u8, u8) {
        match self {
            NPCType::Goblin => (0u8, 255u8, 0u8),
            NPCType::Orc => (180u8, 50u8, 50u8),
            NPCType::Skeleton => (200u8, 200u8, 200u8),
            NPCType::Merchant => (100u8, 150u8, 255u8),
            NPCType::Guard => (70u8, 70u8, 150u8),
        }
    }
}

/// A creature: where it stands, what it carries, its kind and its name.
#[derive(Debug)]
pub struct NPC {
    pub position: (i32, i32),
    pub inventory: Vec<Item>,
    pub npc_type: NPCType,
    pub name: String,
}

/// The mathematical value of an [`NPC`].
pub struct NpcView {
    pub position: (i32, i32),
    pub inventory: Seq<ItemView>,
    pub npc_type: NPCType,
    pub name: Seq<char>,
}

impl View for NPC {
    type V = NpcView;

    open spec fn view(&self) -> NpcView {
        NpcView {
            position: self.position,
            inventory: self.inventory.deep_view(),
            npc_type: self.npc_type,
            name: self.name@,
        }
    }
}

impl DeepView for NPC {
    type V = NpcView;

    open spec fn deep_view(&self) -> NpcView {
        self@
    }
}

/// What walking into a creature leaves behind: nothing, the creature itself,
/// or an item.
#[derive(Debug)]
pub enum InteractionResult {
    Nothing,
    NPC(NPC),
    Item(Item),
}

/// The mathematical value of an [`InteractionResult`].
pub enum InteractionResultView {
    Nothing,
    NPC(NpcView),
    Item(ItemView),
}

impl View for InteractionResult {
    type V = InteractionResultView;

    open spec fn view(&self) -> InteractionResultView {
        match self {
            InteractionResult::Nothing => InteractionResultView::Nothing,
            InteractionResult::NPC(npc) => InteractionResultView::NPC(npc@),
            InteractionResult::Item(item) => InteractionResultView::Item(item@),
        }
    }
}

/// The condition "stands at `p`" on creatures.
pub open spec fn stands_at(p: (i32, i32)) -> spec_fn(NpcView) -> bool {
    |n: NpcView| n.position == p
}

/// The index of the first creature of `npcs` that stands at `p`, if any does.
pub open spec fn npc_at(npcs: Seq<NpcView>, p: (i32, i32)) -> Option<int> {
    first_where(npcs, stands_at(p))
}

/// Whether a creature of `npcs` stands at `p`.
pub open spec fn occupied(npcs: Seq<NpcView>, p: (i32, i32)) -> bool {
    any_where(npcs, stands_at(p))
}

/// The step that a direction roll stands for: 0 is down, 1 up, 2 right,
/// anything else left.
pub open spec fn direction(choice: int) -> (int, int) {
    if choice == 0 {
        (0, 1)
    } else if choice == 1 {
        (0, -1)
    } else if choice == 2 {
        (1, 0)
    } else {
        (-1, 0)
    }
}

/// -1, 0 or 1 as `d` is negative, zero or positive.
pub open spec fn signum(d: int) -> int {
    if d > 0 {
        1
    } else if d < 0 {
        -1
    } else {
        0
    }
}

/// Whether a creature may wander onto `(x, y)`: the tile can be entered, the
/// player does not stand on it, and none of `others` does.
pub open spec fn free_for_wandering(
    world: WorldView,
    player: PlayerView,
    others: Seq<NpcView>,
    x: int,
    y: int,
) -> bool {
    &&& world.enterable(x, y)
    &&& player.position != (x as i32, y as i32)
    &&& !occupied(others, (x as i32, y as i32))
}

/// Where a wandering creature goes: one step in the first direction rolled if
/// that tile is free, else one step in the second if that one is, else nowhere.
pub open spec fn wander_target(
    npc: NpcView,
    world: WorldView,
    player: PlayerView,
    others: Seq<NpcView>,
    rolls: TurnRolls,
) -> Option<(i32, i32)> {
    let first = direction(rolls.first_direction as int);
    let second = direction(rolls.second_direction as int);
    let (ax, ay) = (npc.position.0 + first.0, npc.position.1 + first.1);
    let (bx, by) = (npc.position.0 + second.0, npc.position.1 + second.1);
    if free_for_wandering(world, player, others, ax, ay) {
        Some((ax as i32, ay as i32))
    } else if free_for_wandering(world, player, others, bx, by) {
        Some((bx as i32, by as i32))
    } else {
        None
    }
}

/// Whether the player is within an orc's reach: at a distance of five tiles
/// at most, as the crow flies.
pub open spec fn within_reach(npc: NpcView, player: PlayerView) -> bool {
    let dx = player.position.0 - npc.position.0;
    let dy = player.position.1 - npc.position.1;
    dx * dx + dy * dy <= 25
}

/// The state after one creature's turn: the creature, the world, the player,
/// and the messages to log.
pub struct TurnOutcome {
    pub npc: NpcView,
    pub world: WorldView,
    pub player: PlayerView,
    pub messages: Seq<Seq<char>>,
}

/// The outcome of a turn on which nothing happens.
pub open spec fn idle_turn(npc: NpcView, world: WorldView, player: PlayerView) -> TurnOutcome {
    TurnOutcome { npc, world, player, messages: Seq::empty() }
}

/// A merchant's turn. With a move roll below 24 it wanders. Where it goes, its
/// cart destroys the first item lying there; and with a drop roll below 15 it
/// then drops the ware rolled onto its new tile.
pub open spec fn merchant_turn(
    npc: NpcView,
    world: WorldView,
    player: PlayerView,
    others: Seq<NpcView>,
    rolls: TurnRolls,
) -> TurnOutcome {
    if rolls.move_chance < 24 {
        match wander_target(npc, world, player, others, rolls) {
            Some(target) => {
                let cleared = match item_at(world.items, target) {
                    Some(i) => TurnOutcome {
                        npc: NpcView { position: target, ..npc },
                        world: world.without_item(i),
                        player,
                        messages: seq![crushed_text(world.items[i].item.label)],
                    },
                    None => TurnOutcome {
                        npc: NpcView { position: target, ..npc },
                        world,
                        player,
                        messages: Seq::empty(),
                    },
                };
                if rolls.drop_chance < 15 {
                    TurnOutcome {
                        world: cleared.world.with_item(target, merchant_ware(rolls.ware as int)),
                        messages: cleared.messages.push(dropped_text(ware_name(rolls.ware as int))),
                        ..cleared
                    }
                } else {
                    cleared
                }
            },
            None => idle_turn(npc, world, player),
        }
    } else {
        idle_turn(npc, world, player)
    }
}

/// An orc's turn. With the player within reach it takes one step towards
/// them, along both axes at once; if that step would land on the player it
/// strikes instead, for the damage rolled, and if the tile cannot be entered
/// or another creature stands there it stays. With the player out of reach it
/// wanders.
pub open spec fn orc_turn(
    npc: NpcView,
    world: WorldView,
    player: PlayerView,
    others: Seq<NpcView>,
    rolls: TurnRolls,
) -> TurnOutcome {
    if within_reach(npc, player) {
        let x = npc.position.0 + signum(player.position.0 - npc.position.0);
        let y = npc.position.1 + signum(player.position.1 - npc.position.1);
        if player.position == (x as i32, y as i32) {
            TurnOutcome {
                npc,
                world,
                player: player.damaged(rolls.damage as int),
                messages: seq![orc_attack_text(npc.name, rolls.damage as int)],
            }
        } else if world.enterable(x, y) && !occupied(others, (x as i32, y as i32)) {
            TurnOutcome {
                npc: NpcView { position: (x as i32, y as i32), ..npc },
                world,
                player,
                messages: Seq::empty(),
            }
        } else {
            idle_turn(npc, world, player)
        }
    } else {
        match wander_target(npc, world, player, others, rolls) {
            Some(target) => TurnOutcome {
                npc: NpcView { position: target, ..npc },
                world,
                player,
                messages: Seq::empty(),
            },
            None => idle_turn(npc, world, player),
        }
    }
}

/// One creature's turn: merchants and orcs act, the others stand still.
pub open spec fn npc_turn(
    npc: NpcView,
    world: WorldView,
    player: PlayerView,
    others: Seq<NpcView>,
    rolls: TurnRolls,
) -> TurnOutcome {
    match npc.npc_type {
        NPCType::Merchant => merchant_turn(npc, world, player, others, rolls),
        NPCType::Orc => orc_turn(npc, world, player, others, rolls),
        _ => idle_turn(npc, world, player),
    }
}

/// Whether a creature of `npcs` stands at `p`.
pub fn is_occupied(npcs: &[NPC], p: (i32, i32)) -> (found: bool)
    ensures
        found == occupied(npcs.deep_view(), p),
{
    let mut i: usize = 0;
    while i < npcs.len()
        invariant
            i <= npcs@.len(),
            forall|j: int| 0 <= j < i ==> !stands_at(p)(#[trigger] npcs.deep_view()[j]),
        decreases npcs@.len() - i,
    {
        if npcs[i].position.0 == p.0 && npcs[i].position.1 == p.1 {
            proof {
                assert(npcs.deep_view()[i as int] == npcs@[i as int]@);
                assert(is_first_where(npcs.deep_view(), stands_at(p), i as int));
                lemma_first_where_found(npcs.deep_view(), stands_at(p), i as int);
            }
            return true;
        }
        assert(npcs.deep_view()[i as int] == npcs@[i as int]@);
        i += 1;
    }
    proof {
        lemma_first_where_none(npcs.deep_view(), stands_at(p));
    }
    false
}

/// The step that a direction roll stands for.
fn step_of(choice: i32) -> (step: (i64, i64))
    ensures
        (step.0 as int, step.1 as int) == direction(choice as int),
{
    if choice == 0 {
        (0, 1)
    } else if choice == 1 {
        (0, -1)
    } else if choice == 2 {
        (1, 0)
    } else {
        (-1, 0)
    }
}

fn is_free_for_wandering(
    world: &GameWorld,
    player: &Player,
    other_npcs: &[NPC],
    x: i64,
    y: i64,
) -> (free: bool)
    requires
        world.wf(),
    ensures
        free == free_for_wandering(world@, player@, other_npcs.deep_view(), x as int, y as int),
{
    if !world.can_enter(x, y) {
        return false;
    }
    let target = (x as i32, y as i32);
    if player.position.0 == target.0 && player.position.1 == target.1 {
        return false;
    }
    !is_occupied(other_npcs, target)
}

impl NPC {
    pub fn new(x: i32, y: i32, npc_type: NPCType, name: String) -> (npc: NPC)
        ensures
            npc@ == (NpcView { position: (x, y), inventory: Seq::empty(), npc_type, name: name@ }),
    {
        let npc = NPC { position: (x, y), inventory: Vec::new(), npc_type, name };
        assert(npc@.inventory =~= Seq::empty());
        npc
    }

    pub fn get_display_char(&self) -> (glyph: char)
        ensures
            glyph == self.npc_type.glyph(),
    {
        match self.npc_type {
            NPCType::Goblin => 'g',
            NPCType::Orc => 'O',
            NPCType::Skeleton => 'S',
            NPCType::Merchant => 'M',
            NPCType::Guard => 'G',
        }
    }

    pub fn display_info(&self) -> (info: (char, (u8, u8, u8)))
        ensures
            info == (self.npc_type.glyph(), self.npc_type.color()),
    {
        let glyph = self.get_display_char();
        let color: (u8, u8, u8) = match self.npc_type {
            NPCType::Goblin => (0, 255, 0),
            NPCType::Orc => (180, 50, 50),
            NPCType::Skeleton => (200, 200, 200),
            NPCType::Merchant => (100, 150, 255),
            NPCType::Guard => (70, 70, 150),
        };
        (glyph, color)
    }

    pub fn move_to(&mut self, new_pos: (i32, i32))
        ensures
            final(self)@ == (NpcView { position: new_pos, ..old(self)@ }),
    {
        self.position = new_pos;
    }

    /// Where this creature goes when it wanders with `rolls`.
    fn pick_wander_target(
        &self,
        world: &GameWorld,
        player: &Player,
        other_npcs: &[NPC],
        rolls: &TurnRolls,
    ) -> (target: Option<(i32, i32)>)
        requires
            world.wf(),
        ensures
            target == wander_target(self@, world@, player@, other_npcs.deep_view(), *rolls),
    {
        let first = step_of(rolls.first_direction);
        let ax: i64 = self.position.0 as i64 + first.0;
        let ay: i64 = self.position.1 as i64 + first.1;
        if is_free_for_wandering(world, player, other_npcs, ax, ay) {
            return Some((ax as i32, ay as i32));
        }
        let second = step_of(rolls.second_direction);
        let bx: i64 = self.position.0 as i64 + second.0;
        let by: i64 = self.position.1 as i64 + second.1;
        if is_free_for_wandering(world, player, other_npcs, bx, by) {
            return Some((bx as i32, by as i32));
        }
        None
    }

    /// Whether the player is within this orc's reach.
    fn player_within_reach(&self, player: &Player) -> (near: bool)
        ensures
            near == within_reach(self@, player@),
    {
        let dx: i64 = player.position.0 as i64 - self.position.0 as i64;
        let dy: i64 = player.position.1 as i64 - self.position.1 as i64;
        if dx < -5 || dx > 5 || dy < -5 || dy > 5 {
            assert(dx * dx + dy * dy > 25) by (nonlinear_arith)
                requires
                    dx < -5 || dx > 5 || dy < -5 || dy > 5,
            ;
            false
        } else {
            assert(0 <= dx * dx <= 25 && 0 <= dy * dy <= 25) by (nonlinear_arith)
                requires
                    -5 <= dx <= 5,
                    -5 <= dy <= 5,
            ;
            dx * dx + dy * dy <= 25
        }
    }

    /// A merchant's turn with the dice `rolls`.
    fn merchant_behavior(
        &mut self,
        world: &mut GameWorld,
        player: &Player,
        other_npcs: &[NPC],
        rolls: &TurnRolls,
        log_messages: &mut Vec<String>,
    )
        requires
            old(world).wf(),
            old(log_messages)@.len() == 0,
        ensures
            ({
                let outcome = merchant_turn(
                    old(self)@,
                    old(world)@,
                    player@,
                    other_npcs.deep_view(),
                    *rolls,
                );
                &&& final(self)@ == outcome.npc
                &&& final(world)@ == outcome.world
                &&& final(log_messages).deep_view() == outcome.messages
            }),
            final(world).wf(),
    {
        if rolls.move_chance < 24 {
            self.try_random_move(world, player, other_npcs, rolls, log_messages);
        } else {
            assert(log_messages.deep_view() =~= Seq::empty());
        }
    }

    /// A merchant's wandering step: go where the dice lead, crush what lies
    /// there, and perhaps drop a ware.
    fn try_random_move(
        &mut self,
        world: &mut GameWorld,
        player: &Player,
        other_npcs: &[NPC],
        rolls: &TurnRolls,
        log_messages: &mut Vec<String>,
    )
        requires
            old(world).wf(),
            old(log_messages)@.len() == 0,
            rolls.move_chance < 24,
        ensures
            ({
                let outcome = merchant_turn(
                    old(self)@,
                    old(world)@,
                    player@,
                    other_npcs.deep_view(),
                    *rolls,
                );
                &&& final(self)@ == outcome.npc
                &&& final(world)@ == outcome.world
                &&& final(log_messages).deep_view() == outcome.messages
            }),
            final(world).wf(),
    {
        let ghost before = world@;
        match self.pick_wander_target(world, player, other_npcs, rolls) {
            Some(target) => {
                match world.find_item_at(target) {
                    Some(i) => {
                        let destroyed = world.items.remove(i);
                        log_messages.push(messages::crushed(&destroyed.item.label));
                        assert(destroyed@ == before.items[i as int]);
                        assert(world@.items =~= before.items.remove(i as int));
                        assert(log_messages.deep_view() =~= seq![
                            crushed_text(before.items[i as int].item.label),
                        ]);
                    },
                    None => {
                        assert(log_messages.deep_view() =~= Seq::empty());
                    },
                }
                assert(world@.tiles =~= before.tiles);
                self.position = target;
                if rolls.drop_chance < 15 {
                    self.drop_random_item(world, rolls, log_messages);
                }
            },
            None => {
                assert(log_messages.deep_view() =~= Seq::empty());
            },
        }
    }

    /// Drops the ware rolled where the merchant stands.
    fn drop_random_item(
        &self,
        world: &mut GameWorld,
        rolls: &TurnRolls,
        log_messages: &mut Vec<String>,
    )
        ensures
            final(world)@ == old(world)@.with_item(self.position, merchant_ware(rolls.ware as int)),
            final(log_messages).deep_view() == old(log_messages).deep_view().push(
                dropped_text(ware_name(rolls.ware as int)),
            ),
    {
        let ghost before = world@;
        let ghost log_before = log_messages.deep_view();
        let item = Item::merchant_ware(rolls.ware);
        let message = messages::dropped(&item.label);
        world.items.push(WorldItem::new(self.position.0, self.position.1, item));
        log_messages.push(message);
        assert(world@.items =~= before.with_item(
            self.position,
            merchant_ware(rolls.ware as int),
        ).items);
        assert(world@.tiles =~= before.tiles);
        assert(log_messages.deep_view() =~= log_before.push(
            dropped_text(ware_name(rolls.ware as int)),
        ));
    }

    /// An orc's turn with the dice `rolls`.
    fn orc_behavior(
        &mut self,
        world: &GameWorld,
        player: &mut Player,
        other_npcs: &[NPC],
        rolls: &TurnRolls,
        log_messages: &mut Vec<String>,
    )
        requires
            world.wf(),
            old(player).wf(),
            old(log_messages)@.len() == 0,
        ensures
            ({
                let outcome = orc_turn(
                    old(self)@,
                    world@,
                    old(player)@,
                    other_npcs.deep_view(),
                    *rolls,
                );
                &&& final(self)@ == outcome.npc
                &&& final(player)@ == outcome.player
                &&& final(log_messages).deep_view() == outcome.messages
            }),
            final(player).wf(),
    {
        if self.player_within_reach(player) {
            self.move_towards_player_or_attack(world, player, other_npcs, rolls, log_messages);
        } else {
            self.try_random_move_orc(world, player, other_npcs, rolls);
            assert(log_messages.deep_view() =~= Seq::empty());
        }
    }

    /// An orc's step towards a player within reach, or its blow.
    fn move_towards_player_or_attack(
        &mut self,
        world: &GameWorld,
        player: &mut Player,
        other_npcs: &[NPC],
        rolls: &TurnRolls,
        log_messages: &mut Vec<String>,
    )
        requires
            world.wf(),
            old(player).wf(),
            old(log_messages)@.len() == 0,
            within_reach(old(self)@, old(player)@),
        ensures
            ({
                let outcome = orc_turn(
                    old(self)@,
                    world@,
                    old(player)@,
                    other_npcs.deep_view(),
                    *rolls,
                );
                &&& final(self)@ == outcome.npc
                &&& final(player)@ == outcome.player
                &&& final(log_messages).deep_view() == outcome.messages
            }),
            final(player).wf(),
    {
        let dx: i64 = player.position.0 as i64 - self.position.0 as i64;
        let dy: i64 = player.position.1 as i64 - self.position.1 as i64;
        let move_x: i64 = if dx > 0 {
            1
        } else if dx < 0 {
            -1
        } else {
            0
        };
        let move_y: i64 = if dy > 0 {
            1
        } else if dy < 0 {
            -1
        } else {
            0
        };
        let x: i64 = self.position.0 as i64 + move_x;
        let y: i64 = self.position.1 as i64 + move_y;
        let target = (x as i32, y as i32);
        if target.0 == player.position.0 && target.1 == player.position.1 {
            player.take_damage(rolls.damage);
            log_messages.push(messages::orc_attack(&self.name, rolls.damage));
            assert(log_messages.deep_view() =~= seq![
                orc_attack_text(self.name@, rolls.damage as int),
            ]);
            return ;
        }
        assert(log_messages.deep_view() =~= Seq::empty());
        if !world.can_enter(x, y) {
            return ;
        }
        if is_occupied(other_npcs, target) {
            return ;
        }
        self.position = target;
    }

    /// An orc's wandering step, when the player is out of reach.
    fn try_random_move_orc(
        &mut self,
        world: &GameWorld,
        player: &Player,
        other_npcs: &[NPC],
        rolls: &TurnRolls,
    )
        requires
            world.wf(),
        ensures
            final(self)@ == (match wander_target(
                old(self)@,
                world@,
                player@,
                other_npcs.deep_view(),
                *rolls,
            ) {
                Some(target) => NpcView { position: target, ..old(self)@ },
                None => old(self)@,
            }),
    {
        match self.pick_wander_target(world, player, other_npcs, rolls) {
            Some(target) => {
                self.position = target;
            },
            None => {},
        }
    }

    /// Plays this creature's turn with the dice `rolls`, and returns the
    /// messages to log. Merchants and orcs act; the other kinds stand still.
    pub fn act(
        &mut self,
        world: &mut GameWorld,
        player: &mut Player,
        other_npcs: &[NPC],
        rolls: &TurnRolls,
    ) -> (log_messages: Vec<String>)
        requires
            old(world).wf(),
            old(player).wf(),
        ensures
            ({
                let outcome = npc_turn(
                    old(self)@,
                    old(world)@,
                    old(player)@,
                    other_npcs.deep_view(),
                    *rolls,
                );
                &&& final(self)@ == outcome.npc
                &&& final(world)@ == outcome.world
                &&& final(player)@ == outcome.player
                &&& log_messages.deep_view() == outcome.messages
            }),
            final(world).wf(),
            final(player).wf(),
    {
        let mut log_messages: Vec<String> = Vec::new();
        match self.npc_type {
            NPCType::Merchant => {
                self.merchant_behavior(world, player, other_npcs, rolls, &mut log_messages);
            },
            NPCType::Orc => {
                self.orc_behavior(world, player, other_npcs, rolls, &mut log_messages);
            },
            _ => {
                assert(log_messages.deep_view() =~= Seq::empty());
            },
        }
        log_messages
    }

    /// Plays this creature's turn with freshly rolled dice, and returns the
    /// messages to log. Whatever the dice show, the turn is the one that
    /// [`npc_turn`] describes for them.
    pub fn perform_action(
        &mut self,
        world: &mut GameWorld,
        player: &mut Player,
        other_npcs: &[NPC],
    ) -> (log_messages: Vec<String>)
        requires
            old(world).wf(),
            old(player).wf(),
        ensures
            exists|rolls: TurnRolls|
                {
                    let outcome = #[trigger] npc_turn(
                        old(self)@,
                        old(world)@,
                        old(player)@,
                        other_npcs.deep_view(),
                        rolls,
                    );
                    &&& rolls.valid()
                    &&& final(self)@ == outcome.npc
                    &&& final(world)@ == outcome.world
                    &&& final(player)@ == outcome.player
                    &&& log_messages.deep_view() == outcome.messages
                },
            final(world).wf(),
            final(player).wf(),
    {
        let rolls = TurnRolls::draw();
        self.act(world, player, other_npcs, &rolls)
    }
}

impl Clone for NPC {
    fn clone(&self) -> (copy: NPC)
        ensures
            copy@ == self@,
    {
        let mut inventory: Vec<Item> = Vec::new();
        let mut i: usize = 0;
        while i < self.inventory.len()
            invariant
                i <= self.inventory@.len(),
                inventory@.len() == i,
                forall|j: int| 0 <= j < i ==> (#[trigger] inventory@[j])@ == self.inventory@[j]@,
            decreases self.inventory@.len() - i,
        {
            inventory.push(self.inventory[i].clone());
            i += 1;
        }
        let copy = NPC {
            position: self.position,
            inventory,
            npc_type: self.npc_type,
            name: self.name.clone(),
        };
        assert(copy@.inventory =~= self@.inventory);
        copy
    }
}

} // verus!
