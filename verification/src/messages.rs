//! The texts that the game writes into its log.
//!
//! Each message has a spec function that says what its text is, and a builder
//! that is proved to produce exactly that text.

use crate::text::{append_int, int_text};
use vstd::prelude::*;

verus! {

/// The text logged when the player cannot step onto the target tile.
pub open spec fn blocked_text() -> Seq<char> {
    "Can't move there!"@
}

/// The text logged when the player has stepped onto `(x, y)`.
pub open spec fn moved_text(x: int, y: int) -> Seq<char> {
    "Moved to ("@ + int_text(x) + ", "@ + int_text(y) + ")"@
}

/// The text logged when the player walks into a skeleton.
pub open spec fn skeleton_text() -> Seq<char> {
    "The skeleton collapses to a pile of bones"@
}

/// The text logged when the player walks into the orc called `name` and is
/// hit for `damage`.
pub open spec fn attack_text(name: Seq<char>, damage: int) -> Seq<char> {
    name + " attacks you for "@ + int_text(damage) + " damage!"@
}

/// The text logged when the player walks into a goblin.
pub open spec fn goblin_text() -> Seq<char> {
    "Goblin cackles and tweaks your nose"@
}

/// The text logged when the player walks into any other creature called `name`.
pub open spec fn interact_text(name: Seq<char>) -> Seq<char> {
    "You interact with "@ + name + "."@
}

/// The text logged when the player picks up the item called `label`.
pub open spec fn pickup_text(label: Seq<char>) -> Seq<char> {
    "You picked up "@ + label + "."@
}

/// The text logged when the player tries to pick up from a bare tile.
pub open spec fn nothing_here_text() -> Seq<char> {
    "There is nothing here to pick up."@
}

/// The text logged when a key opens a carried chest.
pub open spec fn unlock_text() -> Seq<char> {
    "When the key clicks in the lock the treasure chest spills open, dropping a pile of treasure on the ground"@
}

/// The text logged when the key called `label` is used without a chest.
pub open spec fn no_chest_text(label: Seq<char>) -> Seq<char> {
    "You used "@ + label + ", but you need a treasure chest to unlock."@
}

/// The text logged when the item called `label` is used to no effect.
pub open spec fn no_effect_text(label: Seq<char>) -> Seq<char> {
    "You used "@ + label + ", but nothing happens."@
}

/// The text logged when a merchant's cart crushes the item called `label`.
pub open spec fn crushed_text(label: Seq<char>) -> Seq<char> {
    "The merchant and his cart destroyed the "@ + label + " on the ground!"@
}

/// The text logged when a merchant drops the ware called `name`.
pub open spec fn dropped_text(name: Seq<char>) -> Seq<char> {
    "The merchant dropped a "@ + name + " from his cart!"@
}

/// The text logged when the orc called `name` attacks on its own turn and
/// hits for `damage`.
pub open spec fn orc_attack_text(name: Seq<char>, damage: int) -> Seq<char> {
    "The orc "@ + name + " attacks you for "@ + int_text(damage) + " damage!"@
}

/// The text logged when the player wants to use an item and carries none.
pub open spec fn no_items_text() -> Seq<char> {
    "You have no items to use."@
}

/// The text logged while the player is dead.
pub open spec fn death_text() -> Seq<char> {
    "Your character has met its end..."@
}

/// The three lines that open every log.
pub open spec fn welcome_log() -> Seq<Seq<char>> {
    seq!["Welcome to the dungeon!"@, "Press arrow keys to move."@, "Explore carefully..."@]
}

pub fn blocked() -> (message: String)
    ensures
        message@ == blocked_text(),
{
    String::from_str("Can't move there!")
}

pub fn moved(x: i32, y: i32) -> (message: String)
    ensures
        message@ == moved_text(x as int, y as int),
{
    let mut message = String::from_str("Moved to (");
    append_int(&mut message, x);
    message.append(", ");
    append_int(&mut message, y);
    message.append(")");
    message
}

pub fn skeleton() -> (message: String)
    ensures
        message@ == skeleton_text(),
{
    String::from_str("The skeleton collapses to a pile of bones")
}

pub fn attack(name: &String, damage: i32) -> (message: String)
    ensures
        message@ == attack_text(name@, damage as int),
{
    let mut message = name.clone();
    message.append(" attacks you for ");
    append_int(&mut message, damage);
    message.append(" damage!");
    message
}

pub fn goblin() -> (message: String)
    ensures
        message@ == goblin_text(),
{
    String::from_str("Goblin cackles and tweaks your nose")
}

pub fn interact(name: &String) -> (message: String)
    ensures
        message@ == interact_text(name@),
{
    let mut message = String::from_str("You interact with ");
    message.append(name.as_str());
    message.append(".");
    message
}

pub fn pickup(label: &String) -> (message: String)
    ensures
        message@ == pickup_text(label@),
{
    let mut message = String::from_str("You picked up ");
    message.append(label.as_str());
    message.append(".");
    message
}

pub fn nothing_here() -> (message: String)
    ensures
        message@ == nothing_here_text(),
{
    String::from_str("There is nothing here to pick up.")
}

pub fn unlock() -> (message: String)
    ensures
        message@ == unlock_text(),
{
    String::from_str(
        "When the key clicks in the lock the treasure chest spills open, dropping a pile of treasure on the ground",
    )
}

pub fn no_chest(label: &String) -> (message: String)
    ensures
        message@ == no_chest_text(label@),
{
    let mut message = String::from_str("You used ");
    message.append(label.as_str());
    message.append(", but you need a treasure chest to unlock.");
    message
}

pub fn no_effect(label: &String) -> (message: String)
    ensures
        message@ == no_effect_text(label@),
{
    let mut message = String::from_str("You used ");
    message.append(label.as_str());
    message.append(", but nothing happens.");
    message
}

pub fn crushed(label: &String) -> (message: String)
    ensures
        message@ == crushed_text(label@),
{
    let mut message = String::from_str("The merchant and his cart destroyed the ");
    message.append(label.as_str());
    message.append(" on the ground!");
    message
}

pub fn dropped(name: &String) -> (message: String)
    ensures
        message@ == dropped_text(name@),
{
    let mut message = String::from_str("The merchant dropped a ");
    message.append(name.as_str());
    message.append(" from his cart!");
    message
}

pub fn orc_attack(name: &String, damage: i32) -> (message: String)
    ensures
        message@ == orc_attack_text(name@, damage as int),
{
    let mut message = String::from_str("The orc ");
    message.append(name.as_str());
    message.append(" attacks you for ");
    append_int(&mut message, damage);
    message.append(" damage!");
    message
}

pub fn no_items() -> (message: String)
    ensures
        message@ == no_items_text(),
{
    String::from_str("You have no items to use.")
}

pub fn death() -> (message: String)
    ensures
        message@ == death_text(),
{
    String::from_str("Your character has met its end...")
}

} // verus!
