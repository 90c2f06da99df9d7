use roguelike::item::Item;
use roguelike::world::{GameWorld, TileType, WorldItem};

#[test]
fn border_cells_are_walls() {
    let world = GameWorld::new(50, 30);
    for x in 0..50 {
        assert_eq!(world.get_tile(x, 0), Some(&TileType::Wall));
        assert_eq!(world.get_tile(x, 29), Some(&TileType::Wall));
        assert!(!world.is_walkable(x, 0));
        assert!(!world.is_walkable(x, 29));
    }
    for y in 0..30 {
        assert_eq!(world.get_tile(0, y), Some(&TileType::Wall));
        assert_eq!(world.get_tile(49, y), Some(&TileType::Wall));
        assert!(!world.is_walkable(0, y));
        assert!(!world.is_walkable(49, y));
    }
}

#[test]
fn inner_cells_follow_the_diagonal_pattern() {
    let world = GameWorld::new(20, 12);
    for x in 1..19 {
        for y in 1..11 {
            let expected = if (x + y) % 7 == 0 { TileType::Floor } else { TileType::Empty };
            assert_eq!(world.get_tile(x, y), Some(&expected), "tile at ({}, {})", x, y);
            assert!(world.is_walkable(x, y));
        }
    }
}

#[test]
fn chosen_cells_of_the_default_world() {
    let world = GameWorld::default();
    assert_eq!(world.size, (50, 30));
    assert_eq!(world.current_floor, 1);
    assert!(world.items.is_empty());
    assert_eq!(world.get_tile(3, 4), Some(&TileType::Floor));
    assert_eq!(world.get_tile(7, 7), Some(&TileType::Floor));
    assert_eq!(world.get_tile(10, 15), Some(&TileType::Empty));
    assert_eq!(world.get_tile(1, 1), Some(&TileType::Empty));
    assert_eq!(world.get_tile(0, 7), Some(&TileType::Wall));
    assert_eq!(world.get_tile(49, 29), Some(&TileType::Wall));
}

#[test]
fn generation_is_deterministic_and_idempotent() {
    let first = GameWorld::new(17, 9);
    let mut second = GameWorld::new(17, 9);
    assert_eq!(first.tiles, second.tiles);
    second.generate_simple_room();
    assert_eq!(first.tiles, second.tiles);
    second.generate_simple_room();
    assert_eq!(first.tiles, second.tiles);
    assert_eq!(second.size, (17, 9));
}

#[test]
fn regeneration_overwrites_other_tiles_and_keeps_items() {
    let mut world = GameWorld::new(8, 8);
    world.tiles[3][3] = TileType::Stairs;
    world.tiles[0][0] = TileType::Door;
    world.items.push(WorldItem::new(2, 2, Item::bone_key()));
    world.current_floor = 4;
    world.generate_simple_room();
    assert_eq!(world.tiles, GameWorld::new(8, 8).tiles);
    assert_eq!(world.items.len(), 1);
    assert_eq!(world.current_floor, 4);
}

#[test]
fn tiles_outside_the_grid_are_absent() {
    let world = GameWorld::new(10, 6);
    assert_eq!(world.get_tile(-1, 0), None);
    assert_eq!(world.get_tile(0, -1), None);
    assert_eq!(world.get_tile(10, 0), None);
    assert_eq!(world.get_tile(0, 6), None);
    assert_eq!(world.get_tile(i32::MAX, i32::MAX), None);
    assert_eq!(world.get_tile(i32::MIN, 3), None);
    assert_eq!(world.get_tile(9, 5), Some(&TileType::Wall));
    assert!(!world.is_walkable(-1, 0));
    assert!(!world.is_walkable(10, 3));
    assert!(!world.is_walkable(3, 6));
}

#[test]
fn valid_positions_are_those_inside_the_grid() {
    let world = GameWorld::new(10, 6);
    assert!(world.is_valid_position(0, 0));
    assert!(world.is_valid_position(9, 5));
    assert!(world.is_valid_position(0, 5));
    assert!(!world.is_valid_position(10, 5));
    assert!(!world.is_valid_position(9, 6));
    assert!(!world.is_valid_position(-1, 2));
    assert!(!world.is_valid_position(2, -1));
}

#[test]
fn walkability_goes_by_the_tile() {
    let mut world = GameWorld::new(6, 6);
    world.tiles[2][2] = TileType::Floor;
    world.tiles[2][3] = TileType::Door;
    world.tiles[3][2] = TileType::Empty;
    world.tiles[3][3] = TileType::Stairs;
    world.tiles[4][4] = TileType::Wall;
    assert!(world.is_walkable(2, 2));
    assert!(world.is_walkable(2, 3));
    assert!(world.is_walkable(3, 2));
    assert!(!world.is_walkable(3, 3));
    assert!(!world.is_walkable(4, 4));
}

#[test]
fn can_enter_rejects_coordinates_beyond_any_position() {
    let world = GameWorld::new(6, 6);
    assert!(world.can_enter(2, 2));
    assert!(!world.can_enter(0, 2));
    assert!(!world.can_enter(-1, 2));
    assert!(!world.can_enter(i32::MAX as i64 + 1, 2));
    assert!(!world.can_enter(2, i32::MIN as i64 - 1));
}

#[test]
fn degenerate_grids_can_be_made() {
    let empty = GameWorld::new(0, 0);
    assert_eq!(empty.get_tile(0, 0), None);
    let line = GameWorld::new(1, 5);
    for y in 0..5 {
        assert_eq!(line.get_tile(0, y), Some(&TileType::Wall));
    }
    let flat = GameWorld::new(4, 0);
    assert_eq!(flat.tiles.len(), 4);
    assert_eq!(flat.get_tile(1, 0), None);
}

#[test]
fn the_first_item_on_a_tile_is_found() {
    let mut world = GameWorld::new(10, 10);
    assert_eq!(world.find_item_at((3, 3)), None);
    world.items.push(WorldItem::new(4, 4, Item::bone_key()));
    world.items.push(WorldItem::new(3, 3, Item::treasure_chest()));
    world.items.push(WorldItem::new(3, 3, Item::pile_of_treasure()));
    assert_eq!(world.find_item_at((3, 3)), Some(1));
    assert_eq!(world.find_item_at((4, 4)), Some(0));
    assert_eq!(world.find_item_at((4, 3)), None);
}

#[test]
fn tile_glyphs() {
    assert_eq!(TileType::Wall.get_display_char(), '#');
    assert_eq!(TileType::Floor.get_display_char(), '.');
    assert_eq!(TileType::Door.get_display_char(), '+');
    assert_eq!(TileType::Stairs.get_display_char(), '>');
    assert_eq!(TileType::Empty.get_display_char(), ' ');
}

#[test]
fn world_item_keeps_its_place_and_item() {
    let placed = WorldItem::new(7, -2, Item::bone_key());
    assert_eq!(placed.position, (7, -2));
    assert_eq!(placed.item.label, "Bone Key");
    let copy = placed.clone();
    assert_eq!(copy.position, (7, -2));
    assert_eq!(copy.item.description, "A key carved from ancient bone.");
}
