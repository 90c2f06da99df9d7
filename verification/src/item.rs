//! Items: immutable value data that moves between the world and inventories.

use crate::scan::{any_where, first_where, is_first_where, lemma_first_where_found, lemma_first_where_none};
use vstd::prelude::*;

verus! {

/// The closed set of item kinds.
#[derive(Debug, Clone, Copy, PartialEq, Eq, Structural)]
pub enum ItemType {
    Key,
    TreasureChest,
    Treasure,
    Gem,
    Scroll,
    Potion,
}

impl ItemType {
    /// The map glyph of an item kind.
    pub open spec fn glyph(self) -> char {
        match self {
            ItemType::Key => '-',
            ItemType::TreasureChest => '=',
            ItemType::Treasure => '$',
            ItemType::Gem => '*',
            ItemType::Scroll => '?',
            ItemType::Potion => '!',
        }
    }

    /// The colour, as red, green and blue, in which an item kind is drawn.
    pub open spec fn color(self) -> (u8, u8, u8) {
        match self {
            ItemType::Key => (255u8, 215u8, 0u8),
            ItemType::TreasureChest => (139u8, 69u8, 19u8),
            ItemType::Treasure => (255u8, 215u8, 0u8),
            ItemType::Gem => (255u8, 20u8, 147u8),
            ItemType::Scroll => (245u8, 245u8, 220u8),
            ItemType::Potion => (138u8, 43u8, 226u8),
        }
    }
}

/// An item: its kind, its display name and its flavour text.
#[derive(Debug)]
pub struct Item {
    pub item_type: ItemType,
    pub label: String,
    pub description: String,
}

/// The mathematical value of an [`Item`].
pub struct ItemView {
    pub item_type: ItemType,
    pub label: Seq<char>,
    pub description: Seq<char>,
}

impl View for Item {
    type V = ItemView;

    open spec fn view(&self) -> ItemView {
        ItemView { item_type: self.item_type, label: self.label@, description: self.description@ }
    }
}

impl DeepView for Item {
    type V = ItemView;

    open spec fn deep_view(&self) -> ItemView {
        self@
    }
}

impl Clone for Item {
    fn clone(&self) -> (copy: Item)
        ensures
            copy@ == self@,
    {
        Item {
            item_type: self.item_type,
            label: self.label.clone(),
            description: self.description.clone(),
        }
    }
}

/// The key that a collapsing skeleton leaves behind.
pub open spec fn bone_key() -> ItemView {
    ItemView {
        item_type: ItemType::Key,
        label: "Bone Key"@,
        description: "A key carved from ancient bone."@,
    }
}

/// The chest that a treasure hunt starts with.
pub open spec fn treasure_chest() -> ItemView {
    ItemView {
        item_type: ItemType::TreasureChest,
        label: "Treasure Chest"@,
        description: "A mysterious chest that might contain valuable items."@,
    }
}

/// The treasure that spills from an unlocked chest.
pub open spec fn pile_of_treasure() -> ItemView {
    ItemView {
        item_type: ItemType::Treasure,
        label: "Pile of Treasure"@,
        description: "Glittering coins and gems scattered on the ground."@,
    }
}

/// The display name of the ware that a merchant drops for `choice`:
/// 0 is a gem, 1 a scroll, anything else a potion.
pub open spec fn ware_name(choice: int) -> Seq<char> {
    if choice == 0 {
        "Precious Gem"@
    } else if choice == 1 {
        "Ancient Scroll"@
    } else {
        "Magic Potion"@
    }
}

/// The ware that a merchant drops for `choice`.
pub open spec fn merchant_ware(choice: int) -> ItemView {
    if choice == 0 {
        ItemView {
            item_type: ItemType::Gem,
            label: ware_name(choice),
            description: "A sparkling gem that catches the light"@,
        }
    } else if choice == 1 {
        ItemView {
            item_type: ItemType::Scroll,
            label: ware_name(choice),
            description: "A scroll covered in mysterious writing"@,
        }
    } else {
        ItemView {
            item_type: ItemType::Potion,
            label: ware_name(choice),
            description: "A bubbling potion with unknown effects"@,
        }
    }
}

impl Item {
    pub fn new(item_type: ItemType, label: String, description: String) -> (item: Item)
        ensures
            item@ == (ItemView { item_type, label: label@, description: description@ }),
    {
        Item { item_type, label, description }
    }

    pub fn get_display_char(&self) -> (glyph: char)
        ensures
            glyph == self.item_type.glyph(),
    {
        match self.item_type {
            ItemType::Key => '-',
            ItemType::TreasureChest => '=',
            ItemType::Treasure => '$',
            ItemType::Gem => '*',
            ItemType::Scroll => '?',
            ItemType::Potion => '!',
        }
    }

    pub fn display_info(&self) -> (info: (char, (u8, u8, u8)))
        ensures
            info == (self.item_type.glyph(), self.item_type.color()),
    {
        let glyph = self.get_display_char();
        let color: (u8, u8, u8) = match self.item_type {
            ItemType::Key => (255, 215, 0),
            ItemType::TreasureChest => (139, 69, 19),
            ItemType::Treasure => (255, 215, 0),
            ItemType::Gem => (255, 20, 147),
            ItemType::Scroll => (245, 245, 220),
            ItemType::Potion => (138, 43, 226),
        };
        (glyph, color)
    }

    /// Makes the key that a collapsing skeleton leaves behind.
    pub fn bone_key() -> (item: Item)
        ensures
            item@ == bone_key(),
    {
        Item::new(
            ItemType::Key,
            String::from_str("Bone Key"),
            String::from_str("A key carved from ancient bone."),
        )
    }

    /// Makes the chest that a treasure hunt starts with.
    pub fn treasure_chest() -> (item: Item)
        ensures
            item@ == treasure_chest(),
    {
        Item::new(
            ItemType::TreasureChest,
            String::from_str("Treasure Chest"),
            String::from_str("A mysterious chest that might contain valuable items."),
        )
    }

    /// Makes the treasure that spills from an unlocked chest.
    pub fn pile_of_treasure() -> (item: Item)
        ensures
            item@ == pile_of_treasure(),
    {
        Item::new(
            ItemType::Treasure,
            String::from_str("Pile of Treasure"),
            String::from_str("Glittering coins and gems scattered on the ground."),
        )
    }

    /// Makes the ware that a merchant drops for `choice`: 0 is a gem, 1 a
    /// scroll, anything else a potion.
    pub fn merchant_ware(choice: i32) -> (item: Item)
        ensures
            item@ == merchant_ware(choice as int),
    {
        if choice == 0 {
            Item::new(
                ItemType::Gem,
                String::from_str("Precious Gem"),
                String::from_str("A sparkling gem that catches the light"),
            )
        } else if choice == 1 {
            Item::new(
                ItemType::Scroll,
                String::from_str("Ancient Scroll"),
                String::from_str("A scroll covered in mysterious writing"),
            )
        } else {
            Item::new(
                ItemType::Potion,
                String::from_str("Magic Potion"),
                String::from_str("A bubbling potion with unknown effects"),
            )
        }
    }
}

/// What using an item hands back to the caller: an item to put back into the
/// inventory, and items to drop where the player stands.
#[derive(Debug)]
pub struct ItemUseResult {
    pub returned_to_inventory: Option<Item>,
    pub dropped_on_ground: Vec<Item>,
}

/// The mathematical value of an [`ItemUseResult`].
pub struct ItemUseResultView {
    pub returned_to_inventory: Option<ItemView>,
    pub dropped_on_ground: Seq<ItemView>,
}

impl View for ItemUseResult {
    type V = ItemUseResultView;

    open spec fn view(&self) -> ItemUseResultView {
        ItemUseResultView {
            returned_to_inventory: self.returned_to_inventory.deep_view(),
            dropped_on_ground: self.dropped_on_ground.deep_view(),
        }
    }
}

/// How many items of kind `wanted` the sequence `items` holds.
pub open spec fn count_of(items: Seq<ItemView>, wanted: ItemType) -> nat
    decreases items.len(),
{
    if items.len() == 0 {
        0
    } else {
        count_of(items.drop_last(), wanted) + if items.last().item_type == wanted {
            1nat
        } else {
            0nat
        }
    }
}

/// The condition "is of kind `wanted`" on items.
pub open spec fn of_kind(wanted: ItemType) -> spec_fn(ItemView) -> bool {
    |item: ItemView| item.item_type == wanted
}

/// Whether `items` holds an item of kind `wanted`.
pub open spec fn has_kind(items: Seq<ItemView>, wanted: ItemType) -> bool {
    any_where(items, of_kind(wanted))
}

/// The index of the first item of kind `wanted` in `items`, if there is one.
pub open spec fn first_of_kind(items: Seq<ItemView>, wanted: ItemType) -> Option<int> {
    first_where(items, of_kind(wanted))
}

/// The index of the first item of kind `wanted` in `items`, if there is one.
pub fn find_kind(items: &Vec<Item>, wanted: ItemType) -> (found: Option<usize>)
    ensures
        found matches Some(i) ==> first_of_kind(items.deep_view(), wanted) == Some(i as int) && i
            < items@.len(),
        found is None ==> first_of_kind(items.deep_view(), wanted) is None,
        found is Some <==> has_kind(items.deep_view(), wanted),
{
    let mut i: usize = 0;
    while i < items.len()
        invariant
            i <= items@.len(),
            forall|j: int| 0 <= j < i ==> !of_kind(wanted)(#[trigger] items.deep_view()[j]),
        decreases items@.len() - i,
    {
        if items[i].item_type == wanted {
            proof {
                assert(items.deep_view()[i as int] == items@[i as int]@);
                assert(is_first_where(items.deep_view(), of_kind(wanted), i as int));
                lemma_first_where_found(items.deep_view(), of_kind(wanted), i as int);
            }
            return Some(i);
        }
        assert(items.deep_view()[i as int] == items@[i as int]@);
        i += 1;
    }
    proof {
        lemma_first_where_none(items.deep_view(), of_kind(wanted));
    }
    None
}

/// How many items of kind `wanted` are in `items`.
pub fn count_kind(items: &Vec<Item>, wanted: ItemType) -> (count: usize)
    ensures
        count == count_of(items.deep_view(), wanted),
{
    let mut count: usize = 0;
    let mut i: usize = 0;
    while i < items.len()
        invariant
            i <= items@.len(),
            count <= i,
            count == count_of(items.deep_view().take(i as int), wanted),
        decreases items@.len() - i,
    {
        proof {
            let next = items.deep_view().take(i as int + 1);
            assert(next.drop_last() =~= items.deep_view().take(i as int));
            assert(next.last() == items@[i as int]@);
        }
        if items[i].item_type == wanted {
            count += 1;
        }
        i += 1;
    }
    assert(items.deep_view().take(i as int) =~= items.deep_view());
    count
}

} // verus!
