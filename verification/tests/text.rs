use roguelike::messages;
use roguelike::text::{append_int, append_nat};

fn int_text(n: i32) -> String {
    let mut text = String::new();
    append_int(&mut text, n);
    text
}

#[test]
fn integers_are_written_in_decimal() {
    assert_eq!(int_text(0), "0");
    assert_eq!(int_text(7), "7");
    assert_eq!(int_text(10), "10");
    assert_eq!(int_text(105), "105");
    assert_eq!(int_text(-1), "-1");
    assert_eq!(int_text(-120), "-120");
    assert_eq!(int_text(i32::MAX), "2147483647");
    assert_eq!(int_text(i32::MIN), "-2147483648");
}

#[test]
fn decimal_text_agrees_with_the_standard_library() {
    let mut n: i32 = -100_000;
    while n < 100_000 {
        assert_eq!(int_text(n), n.to_string());
        n += 37;
    }
}

#[test]
fn naturals_are_appended_to_what_is_there() {
    let mut text = String::from("n = ");
    append_nat(&mut text, 0);
    append_nat(&mut text, 42);
    append_nat(&mut text, u64::MAX);
    assert_eq!(text, "n = 04218446744073709551615");
}

#[test]
fn the_fixed_messages() {
    assert_eq!(messages::blocked(), "Can't move there!");
    assert_eq!(messages::skeleton(), "The skeleton collapses to a pile of bones");
    assert_eq!(messages::goblin(), "Goblin cackles and tweaks your nose");
    assert_eq!(messages::nothing_here(), "There is nothing here to pick up.");
    assert_eq!(
        messages::unlock(),
        "When the key clicks in the lock the treasure chest spills open, dropping a pile of treasure on the ground"
    );
    assert_eq!(messages::no_items(), "You have no items to use.");
    assert_eq!(messages::death(), "Your character has met its end...");
}

#[test]
fn the_messages_with_parts() {
    let name = "Grum".to_string();
    assert_eq!(messages::moved(11, 15), "Moved to (11, 15)");
    assert_eq!(messages::moved(-3, 0), "Moved to (-3, 0)");
    assert_eq!(messages::attack(&name, 17), "Grum attacks you for 17 damage!");
    assert_eq!(messages::orc_attack(&name, 5), "The orc Grum attacks you for 5 damage!");
    assert_eq!(messages::interact(&name), "You interact with Grum.");
    assert_eq!(messages::pickup(&name), "You picked up Grum.");
    assert_eq!(
        messages::no_chest(&name),
        "You used Grum, but you need a treasure chest to unlock."
    );
    assert_eq!(messages::no_effect(&name), "You used Grum, but nothing happens.");
    assert_eq!(
        messages::crushed(&name),
        "The merchant and his cart destroyed the Grum on the ground!"
    );
    assert_eq!(messages::dropped(&name), "The merchant dropped a Grum from his cart!");
}
