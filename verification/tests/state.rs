use roguelike::game_condition::{
    ActiveCondition, CollectionCondition, GameStatus, SurvivalCondition, TreasureHuntCondition,
};
use roguelike::item::{Item, ItemType};
use roguelike::npc::{InteractionResult, NPCType, NPC};
use roguelike::state::GameState;
use roguelike::world::WorldItem;

fn last_message(state: &GameState) -> &str {
    state.log_messages.last().expect("the log is never empty here")
}

fn bare_state() -> GameState {
    let mut state = GameState::new();
    state.npcs.clear();
    state.world.items.clear();
    state
}

#[test]
fn a_new_game_is_a_treasure_hunt() {
    let state = GameState::new();
    assert_eq!(state.player.position, (10, 15));
    assert_eq!(state.player.health, 100);
    assert_eq!(state.world.size, (50, 30));
    assert!(!state.game_over);
    assert_eq!(
        state.log_messages,
        vec!["Welcome to the dungeon!", "Press arrow keys to move.", "Explore carefully..."]
    );
    let cast: Vec<(i32, i32, NPCType, &str)> =
        state.npcs.iter().map(|n| (n.position.0, n.position.1, n.npc_type, n.name.as_str())).collect();
    assert_eq!(
        cast,
        vec![
            (5, 5, NPCType::Goblin, "Grob"),
            (15, 8, NPCType::Merchant, "The Merchant"),
            (25, 12, NPCType::Skeleton, "Bonecrusher"),
            (8, 20, NPCType::Guard, "Guard Captain"),
            (30, 25, NPCType::Orc, "Orc Warrior"),
        ]
    );
    assert_eq!(state.world.items.len(), 1);
    assert_eq!(state.world.items[0].position, (35, 18));
    assert_eq!(state.world.items[0].item.item_type, ItemType::TreasureChest);
    assert_eq!(state.world.items[0].item.label, "Treasure Chest");
    assert!(matches!(state.condition, ActiveCondition::TreasureHunt(_)));
    assert_eq!(state.check_game_status(), GameStatus::Playing);
}

#[test]
fn the_default_game_is_the_new_game() {
    let state = GameState::default();
    assert_eq!(state.npcs.len(), 5);
    assert_eq!(state.player.position, (10, 15));
    assert!(matches!(state.condition, ActiveCondition::TreasureHunt(_)));
}

#[test]
fn the_log_keeps_the_newest_fifty() {
    let mut state = GameState::new();
    for i in 0..60 {
        state.add_log_message(format!("m{}", i));
        assert!(state.log_messages.len() <= 50);
    }
    assert_eq!(state.log_messages.len(), 50);
    for (k, message) in state.log_messages.iter().enumerate() {
        assert_eq!(message, &format!("m{}", k + 10));
    }
}

#[test]
fn the_log_fills_up_before_it_drops_anything() {
    let mut state = GameState::new();
    for i in 0..47 {
        state.add_log_message(format!("m{}", i));
    }
    assert_eq!(state.log_messages.len(), 50);
    assert_eq!(state.log_messages[0], "Welcome to the dungeon!");
    state.add_log_message("one more".to_string());
    assert_eq!(state.log_messages.len(), 50);
    assert_eq!(state.log_messages[0], "Press arrow keys to move.");
    assert_eq!(state.log_messages[49], "one more");
}

#[test]
fn several_messages_are_logged_in_order() {
    let mut state = GameState::new();
    state.add_log_messages(vec!["a".to_string(), "b".to_string(), "c".to_string()]);
    assert_eq!(state.log_messages.len(), 6);
    assert_eq!(&state.log_messages[3..], ["a", "b", "c"]);
    state.add_log_messages(Vec::new());
    assert_eq!(state.log_messages.len(), 6);
}

#[test]
fn a_free_step_moves_the_player() {
    let mut state = GameState::new();
    assert!(state.try_move_player(1, 0));
    assert_eq!(state.player.position, (11, 15));
    assert_eq!(last_message(&state), "Moved to (11, 15)");
    assert!(state.try_move_player(0, -1));
    assert_eq!(state.player.position, (11, 14));
    assert_eq!(last_message(&state), "Moved to (11, 14)");
    assert!(state.try_move_player(-1, 0));
    assert!(state.try_move_player(0, 1));
    assert_eq!(state.player.position, (10, 15));
    assert_eq!(state.log_messages.len(), 7);
    assert_eq!(state.npcs.len(), 5);
}

#[test]
fn a_wall_blocks_the_player() {
    let mut state = GameState::new();
    state.player.position = (1, 1);
    assert!(!state.try_move_player(-1, 0));
    assert_eq!(state.player.position, (1, 1));
    assert_eq!(last_message(&state), "Can't move there!");
    assert!(!state.try_move_player(0, -1));
    assert_eq!(state.player.position, (1, 1));
    assert_eq!(state.log_messages.len(), 5);
    assert_eq!(state.player.health, 100);
}

#[test]
fn the_edge_of_the_grid_blocks_the_player() {
    let mut state = GameState::new();
    state.player.position = (0, 0);
    assert!(!state.try_move_player(-1, 0));
    assert!(!state.try_move_player(0, -1));
    assert_eq!(state.player.position, (0, 0));
    state.player.position = (49, 29);
    assert!(!state.try_move_player(1, 0));
    assert!(!state.try_move_player(0, 1));
    assert_eq!(state.player.position, (49, 29));
    assert_eq!(last_message(&state), "Can't move there!");
}

#[test]
fn steps_beyond_every_coordinate_are_blocked() {
    let mut state = GameState::new();
    state.player.position = (i32::MAX, i32::MIN);
    assert!(!state.try_move_player(1, 0));
    assert!(!state.try_move_player(0, -1));
    assert!(!state.try_move_player(i32::MAX, i32::MIN));
    assert_eq!(state.player.position, (i32::MAX, i32::MIN));
    assert_eq!(last_message(&state), "Can't move there!");
}

#[test]
fn stairs_block_the_player() {
    let mut state = GameState::new();
    state.world.tiles[11][15] = roguelike::world::TileType::Stairs;
    assert!(!state.try_move_player(1, 0));
    assert_eq!(state.player.position, (10, 15));
}

#[test]
fn a_skeleton_collapses_into_a_key() {
    let mut state = GameState::new();
    state.player.position = (24, 12);
    assert!(!state.try_move_player(1, 0));
    assert_eq!(state.player.position, (24, 12));
    assert_eq!(state.player.health, 100);
    assert_eq!(state.npcs.len(), 4);
    assert!(state.npcs.iter().all(|n| n.npc_type != NPCType::Skeleton));
    assert_eq!(state.world.items.len(), 2);
    let keys: Vec<&WorldItem> =
        state.world.items.iter().filter(|w| w.item.item_type == ItemType::Key).collect();
    assert_eq!(keys.len(), 1);
    assert_eq!(keys[0].position, (25, 12));
    assert_eq!(keys[0].item.label, "Bone Key");
    assert_eq!(keys[0].item.description, "A key carved from ancient bone.");
    assert_eq!(last_message(&state), "The skeleton collapses to a pile of bones");
    assert!(state.try_move_player(1, 0));
    assert_eq!(state.player.position, (25, 12));
}

#[test]
fn an_orc_strikes_for_five_to_twenty() {
    for _ in 0..200 {
        let mut state = GameState::new();
        state.player.position = (29, 25);
        assert!(!state.try_move_player(1, 0));
        assert_eq!(state.player.position, (29, 25));
        let lost = 100 - state.player.health;
        assert!((5..=20).contains(&lost), "lost {}", lost);
        assert_eq!(last_message(&state), format!("Orc Warrior attacks you for {} damage!", lost));
        assert_eq!(state.npcs.len(), 5);
        assert_eq!(state.npcs[4].npc_type, NPCType::Orc);
        assert_eq!(state.npcs[4].position, (30, 25));
        assert_eq!(state.npcs[2].npc_type, NPCType::Skeleton);
    }
}

#[test]
fn orc_blows_differ() {
    let mut seen = std::collections::BTreeSet::new();
    for _ in 0..400 {
        let mut state = GameState::new();
        state.player.position = (29, 25);
        state.try_move_player(1, 0);
        seen.insert(100 - state.player.health);
    }
    assert!(seen.len() > 1);
    assert!(seen.iter().all(|lost| (5..=20).contains(lost)));
}

#[test]
fn orc_blows_never_take_health_below_zero() {
    let mut state = GameState::new();
    state.player.position = (29, 25);
    state.player.health = 3;
    assert!(!state.try_move_player(1, 0));
    assert_eq!(state.player.health, 0);
    assert!(!state.try_move_player(1, 0));
    assert_eq!(state.player.health, 0);
    assert_eq!(state.check_game_status(), GameStatus::Lost);
}

#[test]
fn a_goblin_only_teases() {
    let mut state = GameState::new();
    state.player.position = (5, 6);
    assert!(!state.try_move_player(0, -1));
    assert_eq!(state.player.position, (5, 6));
    assert_eq!(state.player.health, 100);
    assert_eq!(last_message(&state), "Goblin cackles and tweaks your nose");
    assert_eq!(state.npcs.len(), 5);
    assert_eq!(state.npcs[4].name, "Grob");
    assert_eq!(state.npcs[4].position, (5, 5));
    assert_eq!(state.npcs[0].name, "The Merchant");
}

#[test]
fn a_merchant_and_a_guard_are_met_by_name() {
    let mut state = GameState::new();
    state.player.position = (14, 8);
    assert!(!state.try_move_player(1, 0));
    assert_eq!(last_message(&state), "You interact with The Merchant.");
    state.player.position = (8, 21);
    assert!(!state.try_move_player(0, -1));
    assert_eq!(last_message(&state), "You interact with Guard Captain.");
    assert_eq!(state.npcs.len(), 5);
    assert_eq!(state.player.health, 100);
    assert_eq!(state.world.items.len(), 1);
}

#[test]
fn the_first_of_two_creatures_on_a_tile_is_met() {
    let mut state = bare_state();
    state.npcs.push(NPC::new(11, 15, NPCType::Guard, "First".to_string()));
    state.npcs.push(NPC::new(11, 15, NPCType::Skeleton, "Second".to_string()));
    assert_eq!(state.find_npc_at((11, 15)), Some(0));
    assert_eq!(state.find_npc_at((12, 15)), None);
    assert!(!state.try_move_player(1, 0));
    assert_eq!(last_message(&state), "You interact with First.");
    assert_eq!(state.npcs[0].name, "Second");
    assert_eq!(state.npcs[1].name, "First");
}

#[test]
fn interactions_with_a_given_blow() {
    let mut state = bare_state();
    let orc = NPC::new(3, 3, NPCType::Orc, "Urk".to_string());
    let result = state.resolve_interaction(orc, 7);
    assert_eq!(state.player.health, 93);
    assert_eq!(last_message(&state), "Urk attacks you for 7 damage!");
    match result {
        InteractionResult::NPC(npc) => {
            assert_eq!(npc.name, "Urk");
            assert_eq!(npc.position, (3, 3));
        }
        other => panic!("the orc should stay, got {:?}", other),
    }
    let orc = NPC::new(3, 3, NPCType::Orc, "Urk".to_string());
    state.resolve_interaction(orc, 20);
    assert_eq!(state.player.health, 73);
    assert_eq!(last_message(&state), "Urk attacks you for 20 damage!");
    let orc = NPC::new(3, 3, NPCType::Orc, "Urk".to_string());
    state.resolve_interaction(orc, 500);
    assert_eq!(state.player.health, 0);

    let skeleton = NPC::new(4, 4, NPCType::Skeleton, "Bones".to_string());
    match state.resolve_interaction(skeleton, 7) {
        InteractionResult::Item(item) => {
            assert_eq!(item.item_type, ItemType::Key);
            assert_eq!(item.label, "Bone Key");
        }
        other => panic!("the skeleton should leave a key, got {:?}", other),
    }
    assert_eq!(state.player.health, 0);
    assert!(state.world.items.is_empty());
}

#[test]
fn interact_with_npc_by_kind() {
    let mut state = bare_state();
    let goblin = NPC::new(1, 1, NPCType::Goblin, "Gob".to_string());
    assert!(matches!(state.interact_with_npc(goblin), InteractionResult::NPC(_)));
    assert_eq!(last_message(&state), "Goblin cackles and tweaks your nose");
    let guard = NPC::new(1, 1, NPCType::Guard, "Hal".to_string());
    assert!(matches!(state.interact_with_npc(guard), InteractionResult::NPC(_)));
    assert_eq!(last_message(&state), "You interact with Hal.");
    let skeleton = NPC::new(1, 1, NPCType::Skeleton, "Bones".to_string());
    assert!(matches!(state.interact_with_npc(skeleton), InteractionResult::Item(_)));
    assert_eq!(state.player.health, 100);
    let orc = NPC::new(1, 1, NPCType::Orc, "Urk".to_string());
    assert!(matches!(state.interact_with_npc(orc), InteractionResult::NPC(_)));
    assert!((80..=95).contains(&state.player.health));
    assert!(state.npcs.is_empty());
}

#[test]
fn settling_puts_back_what_was_left() {
    let mut state = bare_state();
    state.settle(InteractionResult::Nothing, (2, 2));
    assert!(state.npcs.is_empty());
    assert!(state.world.items.is_empty());
    state.settle(InteractionResult::NPC(NPC::new(2, 2, NPCType::Guard, "Hal".to_string())), (9, 9));
    assert_eq!(state.npcs.len(), 1);
    assert_eq!(state.npcs[0].position, (2, 2));
    state.settle(InteractionResult::Item(Item::bone_key()), (9, 9));
    assert_eq!(state.world.items.len(), 1);
    assert_eq!(state.world.items[0].position, (9, 9));
}

#[test]
fn picking_up_takes_the_first_item_underfoot() {
    let mut state = bare_state();
    state.world.items.push(WorldItem::new(3, 3, Item::bone_key()));
    state.world.items.push(WorldItem::new(10, 15, Item::treasure_chest()));
    state.world.items.push(WorldItem::new(10, 15, Item::pile_of_treasure()));
    state.try_pickup_item();
    assert_eq!(state.player.inventory.len(), 1);
    assert_eq!(state.player.inventory[0].item_type, ItemType::TreasureChest);
    assert_eq!(last_message(&state), "You picked up Treasure Chest.");
    assert_eq!(state.world.items.len(), 2);
    assert_eq!(state.world.items[0].position, (3, 3));
    assert_eq!(state.world.items[1].item.item_type, ItemType::Treasure);
    state.try_pickup_item();
    assert_eq!(state.player.inventory.len(), 2);
    assert_eq!(state.player.inventory[1].item_type, ItemType::Treasure);
    assert_eq!(last_message(&state), "You picked up Pile of Treasure.");
    state.try_pickup_item();
    assert_eq!(state.player.inventory.len(), 2);
    assert_eq!(state.world.items.len(), 1);
    assert_eq!(last_message(&state), "There is nothing here to pick up.");
}

#[test]
fn equal_items_are_not_stacked() {
    let mut state = bare_state();
    state.world.items.push(WorldItem::new(10, 15, Item::merchant_ware(0)));
    state.world.items.push(WorldItem::new(10, 15, Item::merchant_ware(0)));
    state.try_pickup_item();
    state.try_pickup_item();
    assert_eq!(state.player.inventory.len(), 2);
    assert!(state.player.inventory.iter().all(|i| i.item_type == ItemType::Gem));
}

#[test]
fn a_key_opens_the_first_chest_carried() {
    let mut state = bare_state();
    state.player.position = (7, 9);
    state.player.inventory.push(Item::merchant_ware(0));
    state.player.inventory.push(Item::treasure_chest());
    state.player.inventory.push(Item::treasure_chest());
    let result = state.use_item(Item::bone_key());
    assert!(result.returned_to_inventory.is_none());
    assert!(result.dropped_on_ground.is_empty());
    assert_eq!(state.player.inventory.len(), 2);
    assert_eq!(state.player.inventory[0].item_type, ItemType::Gem);
    assert_eq!(state.player.inventory[1].item_type, ItemType::TreasureChest);
    assert_eq!(state.world.items.len(), 1);
    assert_eq!(state.world.items[0].position, (7, 9));
    assert_eq!(state.world.items[0].item.item_type, ItemType::Treasure);
    assert_eq!(state.world.items[0].item.label, "Pile of Treasure");
    assert_eq!(
        state.world.items[0].item.description,
        "Glittering coins and gems scattered on the ground."
    );
    assert_eq!(
        last_message(&state),
        "When the key clicks in the lock the treasure chest spills open, dropping a pile of treasure on the ground"
    );
}

#[test]
fn a_key_without_a_chest_is_used_up() {
    let mut state = bare_state();
    state.player.inventory.push(Item::merchant_ware(2));
    let result = state.use_item(Item::bone_key());
    assert!(result.returned_to_inventory.is_none());
    assert!(result.dropped_on_ground.is_empty());
    assert_eq!(state.player.inventory.len(), 1);
    assert!(state.world.items.is_empty());
    assert_eq!(
        last_message(&state),
        "You used Bone Key, but you need a treasure chest to unlock."
    );
}

#[test]
fn other_items_have_no_effect() {
    for choice in 0..3 {
        let mut state = bare_state();
        state.player.inventory.push(Item::treasure_chest());
        let item = Item::merchant_ware(choice);
        let label = item.label.clone();
        let result = state.use_item(item);
        assert!(result.returned_to_inventory.is_none());
        assert!(result.dropped_on_ground.is_empty());
        assert_eq!(state.player.inventory.len(), 1);
        assert!(state.world.items.is_empty());
        assert_eq!(last_message(&state), format!("You used {}, but nothing happens.", label));
    }
    let mut state = bare_state();
    state.use_item(Item::treasure_chest());
    assert_eq!(last_message(&state), "You used Treasure Chest, but nothing happens.");
    state.use_item(Item::pile_of_treasure());
    assert_eq!(last_message(&state), "You used Pile of Treasure, but nothing happens.");
}

#[test]
fn a_use_result_is_put_in_place() {
    let mut state = bare_state();
    state.player.position = (4, 6);
    state.world.items.push(WorldItem::new(1, 1, Item::bone_key()));
    let result = roguelike::item::ItemUseResult {
        returned_to_inventory: Some(Item::merchant_ware(1)),
        dropped_on_ground: vec![Item::merchant_ware(0), Item::merchant_ware(2)],
    };
    state.apply_use_result(result);
    assert_eq!(state.player.inventory.len(), 1);
    assert_eq!(state.player.inventory[0].item_type, ItemType::Scroll);
    assert_eq!(state.world.items.len(), 3);
    assert_eq!(state.world.items[0].position, (1, 1));
    assert_eq!(state.world.items[1].position, (4, 6));
    assert_eq!(state.world.items[1].item.item_type, ItemType::Gem);
    assert_eq!(state.world.items[2].position, (4, 6));
    assert_eq!(state.world.items[2].item.item_type, ItemType::Potion);
}

#[test]
fn using_from_the_inventory_takes_the_item_out() {
    let mut state = bare_state();
    state.player.inventory.push(Item::treasure_chest());
    state.player.inventory.push(Item::bone_key());
    assert!(!state.use_inventory_item(2));
    assert_eq!(state.player.inventory.len(), 2);
    assert_eq!(state.log_messages.len(), 3);
    assert!(state.use_inventory_item(1));
    assert!(state.player.inventory.is_empty());
    assert_eq!(state.world.items.len(), 1);
    assert_eq!(state.world.items[0].item.item_type, ItemType::Treasure);
    assert_eq!(state.world.items[0].position, (10, 15));
}

#[test]
fn treasure_hunt_from_chest_to_victory() {
    let mut state = GameState::new();
    assert_eq!(state.check_game_status(), GameStatus::Playing);
    state.player.position = (35, 18);
    state.try_pickup_item();
    assert_eq!(state.player.inventory.len(), 1);
    assert_eq!(state.player.inventory[0].item_type, ItemType::TreasureChest);
    assert!(state.world.items.is_empty());
    assert_eq!(state.check_game_status(), GameStatus::Playing);

    state.player.position = (24, 12);
    assert!(!state.try_move_player(1, 0));
    assert!(state.try_move_player(1, 0));
    state.try_pickup_item();
    assert_eq!(state.player.inventory.len(), 2);
    assert_eq!(state.player.inventory[1].item_type, ItemType::Key);
    assert_eq!(state.check_game_status(), GameStatus::Playing);

    let key = state.player.inventory.remove(1);
    state.use_item(key);
    assert!(state.player.inventory.is_empty());
    assert_eq!(state.world.items.len(), 1);
    assert_eq!(state.world.items[0].position, state.player.position);
    assert_eq!(state.world.items[0].item.item_type, ItemType::Treasure);
    assert_eq!(state.check_game_status(), GameStatus::Playing);

    state.try_pickup_item();
    assert_eq!(state.player.inventory.len(), 1);
    assert_eq!(state.player.inventory[0].item_type, ItemType::Treasure);
    assert_eq!(state.check_game_status(), GameStatus::Won);
    assert_eq!(
        state.get_victory_message(),
        "Congratulations! You have found the treasure and escaped the dungeon!"
    );
    assert_eq!(state.get_win_description(), "Find and collect the treasure!");
}

fn collection_game() -> GameState {
    GameState::with_condition(ActiveCondition::Collection(CollectionCondition::new(vec![
        (ItemType::Gem, 3),
        (ItemType::Scroll, 2),
        (ItemType::Potion, 1),
    ])))
}

#[test]
fn a_collection_is_won_when_every_count_is_met() {
    let mut state = collection_game();
    assert_eq!(state.check_game_status(), GameStatus::Playing);
    state.player.inventory.push(Item::merchant_ware(0));
    state.player.inventory.push(Item::merchant_ware(0));
    assert_eq!(state.check_game_status(), GameStatus::Playing);
    state.player.inventory.push(Item::merchant_ware(0));
    assert_eq!(state.check_game_status(), GameStatus::Playing);
    state.player.inventory.push(Item::merchant_ware(1));
    state.player.inventory.push(Item::merchant_ware(2));
    assert_eq!(state.check_game_status(), GameStatus::Playing);
    state.player.inventory.push(Item::merchant_ware(1));
    assert_eq!(state.check_game_status(), GameStatus::Won);
    state.player.inventory.push(Item::merchant_ware(0));
    state.player.inventory.push(Item::bone_key());
    assert_eq!(state.check_game_status(), GameStatus::Won);
    state.player.inventory.remove(4);
    assert_eq!(state.check_game_status(), GameStatus::Playing);
}

#[test]
fn a_collection_of_nothing_is_won_at_once() {
    let state = GameState::with_condition(ActiveCondition::Collection(CollectionCondition::new(
        Vec::new(),
    )));
    assert_eq!(state.check_game_status(), GameStatus::Won);
    let state = GameState::with_condition(ActiveCondition::Collection(CollectionCondition::new(
        vec![(ItemType::Gem, 0)],
    )));
    assert_eq!(state.check_game_status(), GameStatus::Won);
}

#[test]
fn survival_is_won_by_the_length_of_the_log() {
    let mut state =
        GameState::with_condition(ActiveCondition::Survival(SurvivalCondition::new(5)));
    assert_eq!(state.log_messages.len(), 3);
    assert_eq!(state.check_game_status(), GameStatus::Playing);
    state.add_log_message("a".to_string());
    assert_eq!(state.check_game_status(), GameStatus::Playing);
    state.add_log_message("b".to_string());
    assert_eq!(state.check_game_status(), GameStatus::Won);
    let state = GameState::with_condition(ActiveCondition::Survival(SurvivalCondition::new(0)));
    assert_eq!(state.check_game_status(), GameStatus::Won);
}

#[test]
fn survival_beyond_the_log_is_never_won() {
    let mut state =
        GameState::with_condition(ActiveCondition::Survival(SurvivalCondition::new(51)));
    state.npcs.clear();
    for i in 0..200 {
        state.add_log_message(format!("m{}", i));
        assert_eq!(state.check_game_status(), GameStatus::Playing);
    }
}

#[test]
fn a_dead_player_has_lost_in_every_mode() {
    let mut hunt = GameState::new();
    hunt.player.inventory.push(Item::pile_of_treasure());
    assert_eq!(hunt.check_game_status(), GameStatus::Won);
    hunt.player.health = 0;
    assert_eq!(hunt.check_game_status(), GameStatus::Lost);

    let mut survival =
        GameState::with_condition(ActiveCondition::Survival(SurvivalCondition::new(1)));
    assert_eq!(survival.check_game_status(), GameStatus::Won);
    survival.player.take_damage(100);
    assert_eq!(survival.check_game_status(), GameStatus::Lost);

    let mut collection = GameState::with_condition(ActiveCondition::Collection(
        CollectionCondition::new(Vec::new()),
    ));
    assert_eq!(collection.check_game_status(), GameStatus::Won);
    collection.player.health = 0;
    assert_eq!(collection.check_game_status(), GameStatus::Lost);

    let _ = TreasureHuntCondition;
}
