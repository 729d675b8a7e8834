use animals::animal::{Animal, Swimmer};
use animals::duck::Duck;

struct Driftwood;

impl Swimmer for Driftwood {}

#[test]
fn duck_quacks() {
    assert_eq!(Duck::new("Donald").speak(), "Quack quack!");
}

#[test]
fn duck_has_its_name() {
    assert_eq!(Duck::new("Donald").name(), "Donald");
}

#[test]
fn duck_paddles() {
    assert_eq!(
        Duck::new("Donald").swim(),
        "Donald paddles gracefully across the pond"
    );
}

#[test]
fn duck_without_a_name_paddles() {
    assert_eq!(Duck::new("").swim(), " paddles gracefully across the pond");
}

#[test]
fn duck_describes_itself() {
    let duck = Duck::new("Donald");
    assert_eq!(duck.describe(), "Donald says: Quack quack!");
    assert_eq!(duck.describe(), format!("{} says: {}", duck.name(), duck.speak()));
}

#[test]
fn swimmer_without_its_own_text_swims_generically() {
    assert_eq!(Driftwood.swim(), "Swimming...");
}
