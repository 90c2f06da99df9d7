//! What holds of the game whatever is played: the laws of the engine, proved
//! over the spec functions that the contracts of the executable code use.

use crate::dice::{TurnRolls, MAX_DAMAGE, MIN_DAMAGE};
use crate::game_condition::{collection_cast, treasure_hunt_cast, ConditionView, GameStatus};
use crate::item::{bone_key, ItemType};
use crate::npc::{npc_at, npc_turn, occupied, stands_at, NPCType, NpcView};
use crate::player::PlayerView;
use crate::scan::lemma_first_where_is_first;
use crate::state::{
    blank_state, is_initial, lemma_logging_changes_only_the_log, log_append, GameStateView,
    LOG_CAPACITY,
};
use crate::world::{simple_room, TileType, WorldItemView, WorldView};
use vstd::prelude::*;

verus! {

/// In the plain room every tile on the border of the grid is a wall, and so
/// cannot be walked on.
pub proof fn lemma_border_is_wall(world: WorldView, x: int, y: int)
    requires
        world.is_simple_room(),
        world.on_border(x, y),
    ensures
        world.tile_at(x, y) == Some(TileType::Wall),
        !world.walkable(x, y),
        !world.enterable(x, y),
{
}

/// In the plain room a tile inside the border is floor where the sum of its
/// coordinates is a multiple of seven, and empty space elsewhere.
pub proof fn lemma_inner_tile(world: WorldView, x: int, y: int)
    requires
        world.is_simple_room(),
        world.in_bounds(x, y),
        !world.on_border(x, y),
    ensures
        (x + y) % 7 == 0 ==> world.tile_at(x, y) == Some(TileType::Floor),
        (x + y) % 7 != 0 ==> world.tile_at(x, y) == Some(TileType::Empty),
        world.walkable(x, y),
{
}

/// The plain room is a function of the grid's size alone: two grids of one
/// size that hold it are equal.
pub proof fn lemma_room_is_determined_by_size(first: WorldView, second: WorldView)
    requires
        first.is_simple_room(),
        second.is_simple_room(),
        first.size == second.size,
    ensures
        first.tiles == second.tiles,
{
}

/// Generating the plain room is idempotent: generating it again changes
/// nothing, and what is generated is the plain room, well formed.
pub proof fn lemma_regeneration_is_idempotent(world: WorldView)
    ensures
        world.regenerated().regenerated() == world.regenerated(),
        world.regenerated().is_simple_room(),
        world.regenerated().wf(),
        world.is_simple_room() ==> world.regenerated() == world,
{
    let room = simple_room(world.size.0 as int, world.size.1 as int);
    assert forall|x: int| 0 <= x < world.size.0 implies (#[trigger] room[x]).len()
        == world.size.1 by {}
}

/// A step onto a tile that cannot be entered, be it unwalkable or outside the
/// grid, does not move the player: nothing changes but the log, whatever the
/// dice show.
pub proof fn lemma_blocked_move_changes_only_the_log(
    state: GameStateView,
    dx: int,
    dy: int,
    damage: int,
)
    requires
        !state.world.enterable(state.player.position.0 + dx, state.player.position.1 + dy),
    ensures
        !state.move_succeeds(dx, dy),
        state.after_move(dx, dy, damage).player == state.player,
        state.after_move(dx, dy, damage).world == state.world,
        state.after_move(dx, dy, damage).npcs == state.npcs,
{
}

/// The player's position changes exactly when the step succeeds, and then it
/// is the target tile: a step that is blocked, by the terrain or by a
/// creature, leaves the player where they were.
pub proof fn lemma_player_moves_only_on_success(
    state: GameStateView,
    dx: int,
    dy: int,
    damage: int,
)
    ensures
        !state.move_succeeds(dx, dy) ==> state.after_move(dx, dy, damage).player.position
            == state.player.position,
        state.move_succeeds(dx, dy) ==> state.after_move(dx, dy, damage).player.position == (
            (state.player.position.0 + dx) as i32,
            (state.player.position.1 + dy) as i32,
        ),
{
}

/// Walking into a skeleton takes it out of play and lays exactly one key on
/// the tile where it stood. Nobody else is touched, and the player is unharmed.
pub proof fn lemma_skeleton_collapses_into_key(
    state: GameStateView,
    dx: int,
    dy: int,
    damage: int,
    i: int,
)
    requires
        state.world.enterable(state.player.position.0 + dx, state.player.position.1 + dy),
        npc_at(
            state.npcs,
            ((state.player.position.0 + dx) as i32, (state.player.position.1 + dy) as i32),
        ) == Some(i),
        state.npcs[i].npc_type == NPCType::Skeleton,
    ensures
        ({
            let target = (
                (state.player.position.0 + dx) as i32,
                (state.player.position.1 + dy) as i32,
            );
            let after = state.after_move(dx, dy, damage);
            &&& after.npcs == state.npcs.remove(i)
            &&& after.npcs.len() == state.npcs.len() - 1
            &&& after.world.items == state.world.items.push(
                WorldItemView { position: target, item: bone_key() },
            )
            &&& after.world.items.len() == state.world.items.len() + 1
            &&& after.world.items.last().item.item_type == ItemType::Key
            &&& after.player == state.player
        }),
{
    let target = ((state.player.position.0 + dx) as i32, (state.player.position.1 + dy) as i32);
    lemma_first_where_is_first(state.npcs, stands_at(target));
}

/// Walking into an orc costs the player the damage of its blow and no more,
/// and health stops at zero. The orc stays in play.
pub proof fn lemma_orc_blow_is_bounded(
    state: GameStateView,
    dx: int,
    dy: int,
    damage: int,
    i: int,
)
    requires
        state.player.wf(),
        MIN_DAMAGE <= damage <= MAX_DAMAGE,
        state.world.enterable(state.player.position.0 + dx, state.player.position.1 + dy),
        npc_at(
            state.npcs,
            ((state.player.position.0 + dx) as i32, (state.player.position.1 + dy) as i32),
        ) == Some(i),
        state.npcs[i].npc_type == NPCType::Orc,
    ensures
        ({
            let after = state.after_move(dx, dy, damage);
            &&& after.player.health == vstd::math::max(0, state.player.health - damage)
            &&& 0 <= after.player.health <= state.player.health
            &&& state.player.health - after.player.health <= MAX_DAMAGE
            &&& after.npcs == state.npcs.remove(i).push(state.npcs[i])
        }),
{
    let target = ((state.player.position.0 + dx) as i32, (state.player.position.1 + dy) as i32);
    lemma_first_where_is_first(state.npcs, stands_at(target));
}

/// Whatever a step leads to and whatever the dice show, the player's health
/// stays between zero and what it was.
pub proof fn lemma_move_never_heals_nor_overkills(
    state: GameStateView,
    dx: int,
    dy: int,
    damage: int,
)
    requires
        state.player.wf(),
        damage >= 0,
    ensures
        0 <= state.after_move(dx, dy, damage).player.health <= state.player.health,
        state.after_move(dx, dy, damage).player.wf(),
{
}

/// A player without health has lost, in every mode and whatever they carry:
/// no win predicate is looked at.
pub proof fn lemma_dead_player_has_lost(state: GameStateView)
    requires
        state.player.health <= 0,
    ensures
        state.status() == GameStatus::Lost,
        forall|condition: ConditionView| condition.status(state) == GameStatus::Lost,
{
}

/// While the player lives, the game is won exactly when the mode's win
/// predicate holds, and is being played otherwise.
pub proof fn lemma_living_player_wins_by_predicate(state: GameStateView)
    requires
        state.player.is_alive(),
    ensures
        state.status() == GameStatus::Won <==> state.condition.win_predicate(state),
        state.status() == GameStatus::Playing <==> !state.condition.win_predicate(state),
        state.status() != GameStatus::Lost,
{
}

/// The newest entries of `log` that fit into the game's log.
pub open spec fn newest(log: Seq<Seq<char>>) -> Seq<Seq<char>> {
    if log.len() > LOG_CAPACITY {
        log.subrange(log.len() - LOG_CAPACITY, log.len() as int)
    } else {
        log
    }
}

/// A log within its capacity stays within it when a message is appended. The
/// message becomes the newest entry; and a full log gives up its oldest entry
/// and no other.
pub proof fn lemma_log_is_bounded_and_fifo(log: Seq<Seq<char>>, message: Seq<char>)
    requires
        log.len() <= LOG_CAPACITY,
    ensures
        log_append(log, message).len() <= LOG_CAPACITY,
        log_append(log, message).last() == message,
        log.len() < LOG_CAPACITY ==> log_append(log, message) == log.push(message),
        log.len() == LOG_CAPACITY ==> log_append(log, message) == log.drop_first().push(message),
        log_append(log, message) == newest(log.push(message)),
{
    let longer = log.push(message);
    if longer.len() > LOG_CAPACITY {
        assert(longer.remove(0) =~= log.drop_first().push(message));
        assert(longer.remove(0) =~= newest(longer));
    }
}

/// After any number of appends the log holds the newest fifty of all the
/// entries it was ever given, in the order in which they came.
pub proof fn lemma_log_keeps_the_newest(state: GameStateView, messages: Seq<Seq<char>>)
    requires
        state.log_messages.len() <= LOG_CAPACITY,
    ensures
        state.logged_all(messages).log_messages == newest(state.log_messages + messages),
        state.logged_all(messages).log_messages.len() <= LOG_CAPACITY,
    decreases messages.len(),
{
    if messages.len() == 0 {
        assert(state.log_messages + messages =~= state.log_messages);
    } else {
        let next = state.logged(messages[0]);
        lemma_log_is_bounded_and_fifo(state.log_messages, messages[0]);
        lemma_log_keeps_the_newest(next, messages.drop_first());
        let all = state.log_messages + messages;
        let pushed = state.log_messages.push(messages[0]);
        assert(pushed + messages.drop_first() =~= all);
        assert(newest(newest(pushed) + messages.drop_first()) =~= newest(all));
    }
}

/// A creature's turn touches nobody but itself: the player is not moved and
/// loses no item, and can only lose health, never more than one blow's worth;
/// the grid stays as it is.
pub proof fn lemma_npc_turn_is_contained(
    npc: NpcView,
    world: WorldView,
    player: PlayerView,
    others: Seq<NpcView>,
    rolls: TurnRolls,
)
    requires
        player.wf(),
        rolls.valid(),
    ensures
        ({
            let outcome = npc_turn(npc, world, player, others, rolls);
            &&& outcome.player.position == player.position
            &&& outcome.player.inventory == player.inventory
            &&& 0 <= outcome.player.health <= player.health
            &&& player.health - outcome.player.health <= MAX_DAMAGE
            &&& outcome.world.tiles == world.tiles
            &&& outcome.world.size == world.size
            &&& outcome.npc.npc_type == npc.npc_type
            &&& outcome.npc.name == npc.name
        }),
{
}

/// Whether everybody has a tile to themselves: no two creatures share one,
/// and none shares the player's.
pub open spec fn tiles_exclusive(state: GameStateView) -> bool {
    &&& forall|i: int, j: int|
        0 <= i < j < state.npcs.len() ==> (#[trigger] state.npcs[i]).position
            != (#[trigger] state.npcs[j]).position
    &&& forall|i: int|
        0 <= i < state.npcs.len() ==> (#[trigger] state.npcs[i]).position
            != state.player.position
}

/// A step of the player never puts two on one tile: the player moves only
/// onto a tile without a creature, and a creature that is met stays where it
/// was or leaves the game.
pub proof fn lemma_move_keeps_tiles_exclusive(
    state: GameStateView,
    dx: int,
    dy: int,
    damage: int,
)
    requires
        tiles_exclusive(state),
    ensures
        tiles_exclusive(state.after_move(dx, dy, damage)),
{
    let x = state.player.position.0 + dx;
    let y = state.player.position.1 + dy;
    let after = state.after_move(dx, dy, damage);
    if state.world.enterable(x, y) {
        let target = (x as i32, y as i32);
        lemma_first_where_is_first(state.npcs, stands_at(target));
        match npc_at(state.npcs, target) {
            Some(i) => {
                let rest = state.npcs.remove(i);
                assert forall|k: int| 0 <= k < rest.len() implies #[trigger] rest[k]
                    == state.npcs[if k < i {
                    k
                } else {
                    k + 1
                }] by {}
                assert(after.player == state.player || after.player == state.player.damaged(
                    damage,
                ));
                if state.npcs[i].npc_type == NPCType::Skeleton {
                    assert(after.npcs == rest);
                } else {
                    assert(after.npcs == rest.push(state.npcs[i]));
                    assert forall|k: int| 0 <= k < after.npcs.len() implies #[trigger] after.npcs[k]
                        == state.npcs[if k == rest.len() {
                        i
                    } else if k < i {
                        k
                    } else {
                        k + 1
                    }] by {}
                }
            },
            None => {
                assert(after.npcs == state.npcs);
                assert(after.player.position == target);
                assert forall|k: int| 0 <= k < state.npcs.len() implies (
                #[trigger] state.npcs[k]).position != target by {
                    assert(!stands_at(target)(state.npcs[k]));
                }
            },
        }
    }
}

/// A creature's turn never puts two on one tile: it moves only onto a tile
/// where neither the player nor another creature stands.
pub proof fn lemma_npc_turn_keeps_tiles_exclusive(state: GameStateView, i: int, rolls: TurnRolls)
    requires
        tiles_exclusive(state),
    ensures
        tiles_exclusive(state.after_npc_turn(i, rolls)),
{
    if 0 <= i < state.npcs.len() {
        let others = state.npcs.remove(i);
        let outcome = npc_turn(state.npcs[i], state.world, state.player, others, rolls);
        let acted = GameStateView {
            npcs: state.npcs.update(i, outcome.npc),
            world: outcome.world,
            player: outcome.player,
            ..state
        };
        lemma_logging_changes_only_the_log(acted, outcome.messages);
        let target = outcome.npc.position;
        assert(outcome.player.position == state.player.position);
        if target != state.npcs[i].position {
            assert(target != state.player.position);
            assert(!occupied(others, target));
            assert forall|k: int| 0 <= k < state.npcs.len() && k != i implies (
            #[trigger] state.npcs[k]).position != target by {
                let at = if k < i {
                    k
                } else {
                    k - 1
                };
                assert(others[at] == state.npcs[k]);
                assert(!stands_at(target)(others[at]));
            }
        }
        assert forall|a: int, b: int| 0 <= a < b < acted.npcs.len() implies (
        #[trigger] acted.npcs[a]).position != (#[trigger] acted.npcs[b]).position by {
            if a != i && b != i {
                assert(state.npcs[a].position != state.npcs[b].position);
            } else if a == i {
                assert(state.npcs[i].position != state.npcs[b].position);
            } else {
                assert(state.npcs[a].position != state.npcs[i].position);
            }
        }
        assert forall|a: int| 0 <= a < acted.npcs.len() implies (#[trigger] acted.npcs[a]).position
            != acted.player.position by {
            assert(state.npcs[a].position != state.player.position);
        }
    }
}

/// A round of the creatures' turns never puts two on one tile.
pub proof fn lemma_npc_turns_keep_tiles_exclusive(
    state: GameStateView,
    rolls: Seq<TurnRolls>,
    count: int,
)
    requires
        tiles_exclusive(state),
    ensures
        tiles_exclusive(state.after_npc_turns(rolls, count)),
    decreases count,
{
    if count > 0 {
        lemma_npc_turns_keep_tiles_exclusive(state, rolls, count - 1);
        lemma_npc_turn_keeps_tiles_exclusive(
            state.after_npc_turns(rolls, count - 1),
            count - 1,
            rolls[count - 1],
        );
    }
}

/// Picking up and using items move nobody.
pub proof fn lemma_items_move_nobody(state: GameStateView, index: int)
    requires
        tiles_exclusive(state),
    ensures
        tiles_exclusive(state.after_pickup()),
        tiles_exclusive(state.after_inventory_use(index)),
{
}

/// A treasure hunt and a collection game start with everybody on a tile of
/// their own.
pub proof fn lemma_fixed_setups_are_exclusive(state: GameStateView)
    requires
        is_initial(state),
        state.condition is TreasureHunt || state.condition is Collection,
    ensures
        tiles_exclusive(state),
{
    let blank = blank_state(state.condition);
    if state.condition is TreasureHunt {
        assert(state.npcs =~= treasure_hunt_cast());
    } else {
        assert(state.npcs =~= collection_cast());
    }
}

} // verus!
