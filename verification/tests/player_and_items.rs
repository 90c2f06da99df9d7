use roguelike::item::{count_kind, find_kind, Item, ItemType};
use roguelike::npc::{NPCType, NPC};
use roguelike::player::Player;

#[test]
fn a_new_player_is_fresh() {
    let player = Player::new(3, 4);
    assert_eq!(player.position, (3, 4));
    assert_eq!(player.health, 100);
    assert_eq!(player.max_health, 100);
    assert_eq!(player.level, 1);
    assert_eq!(player.experience, 0);
    assert!(player.inventory.is_empty());
    assert!(player.is_alive());
}

#[test]
fn the_default_player_starts_at_ten_fifteen() {
    let player = Player::default();
    assert_eq!(player.position, (10, 15));
    assert_eq!(player.health, 100);
}

#[test]
fn move_to_sets_the_position() {
    let mut player = Player::new(1, 1);
    player.move_to((-5, 9));
    assert_eq!(player.position, (-5, 9));
    assert_eq!(player.health, 100);
}

#[test]
fn damage_is_subtracted_and_stops_at_zero() {
    let mut player = Player::new(0, 0);
    player.take_damage(30);
    assert_eq!(player.health, 70);
    player.take_damage(0);
    assert_eq!(player.health, 70);
    player.take_damage(69);
    assert_eq!(player.health, 1);
    assert!(player.is_alive());
    player.take_damage(20);
    assert_eq!(player.health, 0);
    assert!(!player.is_alive());
    player.take_damage(i32::MAX);
    assert_eq!(player.health, 0);
}

#[test]
fn healing_is_added_and_stops_at_the_maximum() {
    let mut player = Player::new(0, 0);
    player.take_damage(50);
    player.heal(20);
    assert_eq!(player.health, 70);
    player.heal(30);
    assert_eq!(player.health, 100);
    player.heal(i32::MAX);
    assert_eq!(player.health, 100);
}

#[test]
fn health_stays_in_range_for_negative_amounts() {
    let mut player = Player::new(0, 0);
    player.take_damage(40);
    player.take_damage(-10);
    assert_eq!(player.health, 70);
    player.take_damage(i32::MIN);
    assert_eq!(player.health, 100);
    player.heal(-30);
    assert_eq!(player.health, 70);
    player.heal(i32::MIN);
    assert_eq!(player.health, 0);
}

#[test]
fn a_cloned_player_carries_the_same() {
    let mut player = Player::new(2, 3);
    player.inventory.push(Item::bone_key());
    player.take_damage(12);
    let copy = player.clone();
    assert_eq!(copy.position, (2, 3));
    assert_eq!(copy.health, 88);
    assert_eq!(copy.inventory.len(), 1);
    assert_eq!(copy.inventory[0].label, "Bone Key");
}

#[test]
fn item_new_keeps_its_parts() {
    let item = Item::new(ItemType::Gem, "Ruby".to_string(), "Red.".to_string());
    assert_eq!(item.item_type, ItemType::Gem);
    assert_eq!(item.label, "Ruby");
    assert_eq!(item.description, "Red.");
    let copy = item.clone();
    assert_eq!(copy.item_type, ItemType::Gem);
    assert_eq!(copy.label, "Ruby");
    assert_eq!(copy.description, "Red.");
}

fn of_kind(kind: ItemType) -> Item {
    Item::new(kind, "x".to_string(), "y".to_string())
}

#[test]
fn item_glyphs_and_colours() {
    assert_eq!(of_kind(ItemType::Key).get_display_char(), '-');
    assert_eq!(of_kind(ItemType::TreasureChest).get_display_char(), '=');
    assert_eq!(of_kind(ItemType::Treasure).get_display_char(), '$');
    assert_eq!(of_kind(ItemType::Gem).get_display_char(), '*');
    assert_eq!(of_kind(ItemType::Scroll).get_display_char(), '?');
    assert_eq!(of_kind(ItemType::Potion).get_display_char(), '!');
    assert_eq!(of_kind(ItemType::Key).display_info(), ('-', (255, 215, 0)));
    assert_eq!(of_kind(ItemType::TreasureChest).display_info(), ('=', (139, 69, 19)));
    assert_eq!(of_kind(ItemType::Treasure).display_info(), ('$', (255, 215, 0)));
    assert_eq!(of_kind(ItemType::Gem).display_info(), ('*', (255, 20, 147)));
    assert_eq!(of_kind(ItemType::Scroll).display_info(), ('?', (245, 245, 220)));
    assert_eq!(of_kind(ItemType::Potion).display_info(), ('!', (138, 43, 226)));
}

#[test]
fn the_stock_items() {
    let key = Item::bone_key();
    assert_eq!(key.item_type, ItemType::Key);
    assert_eq!(key.label, "Bone Key");
    assert_eq!(key.description, "A key carved from ancient bone.");
    let chest = Item::treasure_chest();
    assert_eq!(chest.item_type, ItemType::TreasureChest);
    assert_eq!(chest.label, "Treasure Chest");
    assert_eq!(chest.description, "A mysterious chest that might contain valuable items.");
    let treasure = Item::pile_of_treasure();
    assert_eq!(treasure.item_type, ItemType::Treasure);
    assert_eq!(treasure.label, "Pile of Treasure");
    assert_eq!(treasure.description, "Glittering coins and gems scattered on the ground.");
}

#[test]
fn the_merchant_wares() {
    let gem = Item::merchant_ware(0);
    assert_eq!(gem.item_type, ItemType::Gem);
    assert_eq!(gem.label, "Precious Gem");
    assert_eq!(gem.description, "A sparkling gem that catches the light");
    let scroll = Item::merchant_ware(1);
    assert_eq!(scroll.item_type, ItemType::Scroll);
    assert_eq!(scroll.label, "Ancient Scroll");
    assert_eq!(scroll.description, "A scroll covered in mysterious writing");
    let potion = Item::merchant_ware(2);
    assert_eq!(potion.item_type, ItemType::Potion);
    assert_eq!(potion.label, "Magic Potion");
    assert_eq!(potion.description, "A bubbling potion with unknown effects");
    assert_eq!(Item::merchant_ware(-1).item_type, ItemType::Potion);
    assert_eq!(Item::merchant_ware(17).item_type, ItemType::Potion);
}

#[test]
fn kinds_are_found_and_counted() {
    let items = vec![
        of_kind(ItemType::Gem),
        of_kind(ItemType::Scroll),
        of_kind(ItemType::Gem),
        of_kind(ItemType::Key),
        of_kind(ItemType::Gem),
    ];
    assert_eq!(count_kind(&items, ItemType::Gem), 3);
    assert_eq!(count_kind(&items, ItemType::Scroll), 1);
    assert_eq!(count_kind(&items, ItemType::Potion), 0);
    assert_eq!(find_kind(&items, ItemType::Gem), Some(0));
    assert_eq!(find_kind(&items, ItemType::Key), Some(3));
    assert_eq!(find_kind(&items, ItemType::Treasure), None);
    assert_eq!(count_kind(&Vec::new(), ItemType::Gem), 0);
    assert_eq!(find_kind(&Vec::new(), ItemType::Gem), None);
}

#[test]
fn a_new_npc_carries_nothing() {
    let npc = NPC::new(4, 9, NPCType::Guard, "Hal".to_string());
    assert_eq!(npc.position, (4, 9));
    assert_eq!(npc.npc_type, NPCType::Guard);
    assert_eq!(npc.name, "Hal");
    assert!(npc.inventory.is_empty());
}

#[test]
fn npc_glyphs_and_colours() {
    let of = |kind: NPCType| NPC::new(0, 0, kind, "n".to_string());
    assert_eq!(of(NPCType::Goblin).get_display_char(), 'g');
    assert_eq!(of(NPCType::Orc).get_display_char(), 'O');
    assert_eq!(of(NPCType::Skeleton).get_display_char(), 'S');
    assert_eq!(of(NPCType::Merchant).get_display_char(), 'M');
    assert_eq!(of(NPCType::Guard).get_display_char(), 'G');
    assert_eq!(of(NPCType::Goblin).display_info(), ('g', (0, 255, 0)));
    assert_eq!(of(NPCType::Orc).display_info(), ('O', (180, 50, 50)));
    assert_eq!(of(NPCType::Skeleton).display_info(), ('S', (200, 200, 200)));
    assert_eq!(of(NPCType::Merchant).display_info(), ('M', (100, 150, 255)));
    assert_eq!(of(NPCType::Guard).display_info(), ('G', (70, 70, 150)));
}

#[test]
fn npc_move_to_and_clone() {
    let mut npc = NPC::new(1, 2, NPCType::Orc, "Urk".to_string());
    npc.inventory.push(Item::bone_key());
    npc.move_to((8, 9));
    assert_eq!(npc.position, (8, 9));
    let copy = npc.clone();
    assert_eq!(copy.position, (8, 9));
    assert_eq!(copy.name, "Urk");
    assert_eq!(copy.npc_type, NPCType::Orc);
    assert_eq!(copy.inventory.len(), 1);
}
