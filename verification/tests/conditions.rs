use roguelike::game_condition::{
    ActiveCondition, CollectionCondition, GameCondition, SurvivalCondition, TreasureHuntCondition,
};
use roguelike::item::ItemType;
use roguelike::npc::{NPCType, NPC};
use roguelike::placement::{accepts_spot, find_random_position};
use roguelike::player::Player;
use roguelike::state::GameState;
use roguelike::world::{GameWorld, TileType};

#[test]
fn the_texts_of_the_modes() {
    let hunt = TreasureHuntCondition;
    assert_eq!(hunt.win_description(), "Find and collect the treasure!");
    assert_eq!(hunt.loss_description(), "Don't let your health reach zero!");
    assert_eq!(
        hunt.victory_message(),
        "Congratulations! You have found the treasure and escaped the dungeon!"
    );
    let survival = SurvivalCondition::new(50);
    assert_eq!(survival.target_turns, 50);
    assert_eq!(survival.win_description(), "Survive for 50 turns!");
    assert_eq!(SurvivalCondition::new(0).win_description(), "Survive for 0 turns!");
    assert_eq!(
        SurvivalCondition::new(u32::MAX).win_description(),
        "Survive for 4294967295 turns!"
    );
    assert_eq!(survival.loss_description(), "Don't let your health reach zero!");
    assert_eq!(
        survival.victory_message(),
        "Amazing! You have survived the required number of turns and proven your resilience!"
    );
    let collection = CollectionCondition::new(vec![(ItemType::Gem, 3)]);
    assert_eq!(collection.required_items, vec![(ItemType::Gem, 3)]);
    assert_eq!(collection.win_description(), "Collect all required items!");
    assert_eq!(collection.loss_description(), "Don't let your health reach zero!");
    assert_eq!(
        collection.victory_message(),
        "Excellent! You have collected all the required items and completed your quest!"
    );
}

#[test]
fn the_active_condition_speaks_for_its_mode() {
    let active = ActiveCondition::Survival(SurvivalCondition::new(7));
    assert_eq!(active.win_description(), "Survive for 7 turns!");
    assert_eq!(active.loss_description(), "Don't let your health reach zero!");
    let active = ActiveCondition::TreasureHunt(TreasureHuntCondition);
    assert_eq!(active.win_description(), "Find and collect the treasure!");
    let active = ActiveCondition::Collection(CollectionCondition::new(Vec::new()));
    assert_eq!(
        active.victory_message(),
        "Excellent! You have collected all the required items and completed your quest!"
    );
}

#[test]
fn a_treasure_hunt_adds_to_what_is_there() {
    let mut world = GameWorld::new(50, 30);
    let mut npcs = vec![NPC::new(2, 2, NPCType::Guard, "Early".to_string())];
    let mut player = Player::new(3, 3);
    player.take_damage(10);
    TreasureHuntCondition.setup_world(&mut world, &mut npcs, &mut player);
    assert_eq!(npcs.len(), 6);
    assert_eq!(npcs[0].name, "Early");
    assert_eq!(npcs[5].name, "Orc Warrior");
    assert_eq!(player.position, (10, 15));
    assert_eq!(player.health, 90);
    assert_eq!(world.items.len(), 1);
    assert_eq!(world.items[0].position, (35, 18));
}

#[test]
fn a_collection_game_starts_with_four_creatures_and_no_items() {
    let state = GameState::with_condition(ActiveCondition::Collection(CollectionCondition::new(
        vec![(ItemType::Gem, 3), (ItemType::Scroll, 2), (ItemType::Potion, 1)],
    )));
    let cast: Vec<(i32, i32, NPCType, &str)> =
        state.npcs.iter().map(|n| (n.position.0, n.position.1, n.npc_type, n.name.as_str())).collect();
    assert_eq!(
        cast,
        vec![
            (25, 15, NPCType::Merchant, "The Wandering Merchant"),
            (5, 5, NPCType::Goblin, "Snitch"),
            (40, 20, NPCType::Guard, "Tower Guard"),
            (15, 25, NPCType::Orc, "Grum the Collector"),
        ]
    );
    assert_eq!(state.player.position, (10, 15));
    assert!(state.world.items.is_empty());
    assert_eq!(state.log_messages.len(), 3);
}

#[test]
fn a_survival_game_places_everyone_apart_on_inner_tiles() {
    for _ in 0..50 {
        let state =
            GameState::with_condition(ActiveCondition::Survival(SurvivalCondition::new(50)));
        assert_eq!(state.npcs.len(), 5);
        let names: Vec<&str> = state.npcs.iter().map(|n| n.name.as_str()).collect();
        assert_eq!(
            names,
            vec![
                "Urg the Destroyer",
                "Grok the Fierce",
                "Morg the Brutal",
                "Thok the Savage",
                "Vrak the Terrible",
            ]
        );
        let mut places = vec![state.player.position];
        for npc in &state.npcs {
            assert_eq!(npc.npc_type, NPCType::Orc);
            places.push(npc.position);
        }
        for (i, place) in places.iter().enumerate() {
            assert!((1..=48).contains(&place.0) && (1..=28).contains(&place.1));
            assert!(state.world.is_walkable(place.0, place.1));
            assert!(!places[i + 1..].contains(place));
        }
        assert!(state.world.items.is_empty());
        assert_eq!(state.player.health, 100);
    }
}

#[test]
fn survival_games_differ() {
    let mut seen = std::collections::BTreeSet::new();
    for _ in 0..20 {
        let state =
            GameState::with_condition(ActiveCondition::Survival(SurvivalCondition::new(50)));
        seen.insert(state.player.position);
    }
    assert!(seen.len() > 1);
}

#[test]
fn a_grid_without_inner_tiles_gives_the_fallback() {
    let mut world = GameWorld::new(2, 2);
    let mut npcs = Vec::new();
    let mut player = Player::new(0, 0);
    SurvivalCondition::new(5).setup_world(&mut world, &mut npcs, &mut player);
    assert_eq!(player.position, (10, 15));
    assert!(npcs.is_empty());
}

#[test]
fn a_single_free_tile_goes_to_the_player() {
    let mut world = GameWorld::new(3, 3);
    let mut npcs = Vec::new();
    let mut player = Player::new(0, 0);
    SurvivalCondition::new(5).setup_world(&mut world, &mut npcs, &mut player);
    assert_eq!(player.position, (1, 1));
    assert!(npcs.is_empty());
}

#[test]
fn a_search_finds_only_free_spawn_tiles() {
    let mut world = GameWorld::new(4, 3);
    let mut taken = Vec::new();
    let first = find_random_position(&world, &mut taken).expect("two tiles are free");
    let second = find_random_position(&world, &mut taken).expect("one tile is free");
    assert_ne!(first, second);
    assert!([(1, 1), (2, 1)].contains(&first));
    assert!([(1, 1), (2, 1)].contains(&second));
    assert_eq!(taken, vec![first, second]);
    assert_eq!(find_random_position(&world, &mut taken), None);
    assert_eq!(taken.len(), 2);

    world.tiles[1][1] = TileType::Wall;
    world.tiles[2][1] = TileType::Stairs;
    let mut taken = Vec::new();
    assert_eq!(find_random_position(&world, &mut taken), None);
    assert!(taken.is_empty());
}

#[test]
fn spots_are_accepted_when_inner_walkable_and_free() {
    let world = GameWorld::new(6, 5);
    let taken = vec![(2, 2)];
    assert!(accepts_spot(&world, &taken, (1, 1)));
    assert!(accepts_spot(&world, &taken, (4, 3)));
    assert!(!accepts_spot(&world, &taken, (2, 2)));
    assert!(!accepts_spot(&world, &taken, (0, 1)));
    assert!(!accepts_spot(&world, &taken, (5, 1)));
    assert!(!accepts_spot(&world, &taken, (1, 4)));
    assert!(!accepts_spot(&world, &taken, (-1, 2)));
    assert!(!accepts_spot(&world, &taken, (6, 2)));
    assert!(!accepts_spot(&GameWorld::new(2, 9), &Vec::new(), (1, 1)));
}

#[test]
fn populate_puts_everyone_on_their_spot() {
    let mut npcs = Vec::new();
    let mut player = Player::new(0, 0);
    let spots = [Some((4, 4)), Some((5, 5)), None, Some((7, 7)), None, Some((9, 9))];
    SurvivalCondition::new(1).populate(&mut npcs, &mut player, &spots);
    assert_eq!(player.position, (4, 4));
    let placed: Vec<(i32, i32, &str)> =
        npcs.iter().map(|n| (n.position.0, n.position.1, n.name.as_str())).collect();
    assert_eq!(
        placed,
        vec![(5, 5, "Urg the Destroyer"), (7, 7, "Morg the Brutal"), (9, 9, "Vrak the Terrible")]
    );
    let mut player = Player::new(0, 0);
    let mut npcs = Vec::new();
    SurvivalCondition::new(1).populate(&mut npcs, &mut player, &[None; 6]);
    assert_eq!(player.position, (10, 15));
    assert!(npcs.is_empty());
}
