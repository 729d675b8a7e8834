use animals::animal::Animal;
use animals::cat::Cat;
use animals::demo::{
    abstraction_demo, capabilities_demo, composition_demo, demonstration, encapsulation_demo,
    generic_demo, object_demo, provided_demo, takeaways, title,
};
use animals::dog::Dog;
use animals::duck::Duck;
use animals::horse::Horse;

fn heavy() -> String {
    "=".repeat(60)
}

fn light() -> String {
    "-".repeat(40)
}

#[test]
fn title_is_framed_by_heavy_rules() {
    assert_eq!(
        title(),
        vec![heavy(), "RUST OOP CONCEPTS DEMONSTRATION".to_string(), heavy()]
    );
}

#[test]
fn encapsulation_demo_reports_three_ages_and_leaves_the_birthday_age() {
    let mut dog = Dog::new("Rex", 5, "German Shepherd");
    assert_eq!(
        encapsulation_demo(&mut dog),
        vec![
            "".to_string(),
            "1. ENCAPSULATION DEMO:".to_string(),
            light(),
            "  Dog's age: 5".to_string(),
            "  After birthday: 6".to_string(),
            "  After invalid set (100): 6".to_string(),
        ]
    );
    assert_eq!(dog.get_age(), 6);
    assert_eq!(dog.name(), "Rex");
}

#[test]
fn encapsulation_demo_on_a_dog_of_unvalidated_age() {
    let mut dog = Dog::new("Methuselah", 130, "Mastiff");
    let lines = encapsulation_demo(&mut dog);
    assert_eq!(lines[3], "  Dog's age: 130");
    assert_eq!(lines[4], "  After birthday: 6");
    assert_eq!(lines[5], "  After invalid set (100): 6");
    assert_eq!(dog.get_age(), 6);
}

#[test]
fn abstraction_demo_lets_dog_and_cat_speak() {
    let dog = Dog::new("Rex", 5, "German Shepherd");
    let cat = Cat::new("Whiskers", true);
    assert_eq!(
        abstraction_demo(&dog, &cat),
        vec![
            "".to_string(),
            "2. ABSTRACTION DEMO (Traits define interface):".to_string(),
            light(),
            "  Rex speaks: Woof! I'm a GERMAN SHEPHERD".to_string(),
            "  Whiskers speaks: Meow~ (comfortable purr)".to_string(),
        ]
    );
}

#[test]
fn object_demo_introduces_the_collection() {
    let duck = Duck::new("Daisy");
    let cat = Cat::new("Tom", false);
    let animals: Vec<&dyn Animal> = vec![&duck, &cat];
    assert_eq!(
        object_demo(&animals),
        vec![
            "".to_string(),
            "3. POLYMORPHISM DEMO (Same method, different behavior):".to_string(),
            light(),
            "  Daisy says: Quack quack!".to_string(),
            "  Tom says: MEOW! (street cat attitude)".to_string(),
        ]
    );
}

#[test]
fn object_demo_of_an_empty_collection_is_its_heading() {
    let animals: Vec<&dyn Animal> = Vec::new();
    assert_eq!(
        object_demo(&animals),
        vec![
            "".to_string(),
            "3. POLYMORPHISM DEMO (Same method, different behavior):".to_string(),
            light(),
        ]
    );
}

#[test]
fn generic_demo_reports_three_sounds() {
    let dog = Dog::new("Rex", 5, "German Shepherd");
    let cat = Cat::new("Shadow", false);
    let duck = Duck::new("Donald");
    assert_eq!(
        generic_demo(&dog, &cat, &duck),
        vec![
            "".to_string(),
            "4. POLYMORPHISM - Generic functions:".to_string(),
            light(),
            "  Sound: Woof! I'm a GERMAN SHEPHERD".to_string(),
            "  Sound: MEOW! (street cat attitude)".to_string(),
            "  Sound: Quack quack!".to_string(),
        ]
    );
}

#[test]
fn composition_demo_walks_and_gallops() {
    let horse = Horse::new("Spirit", 35);
    assert_eq!(
        composition_demo(&horse),
        vec![
            "".to_string(),
            "5. COMPOSITION ('Inheritance' Rust-style):".to_string(),
            light(),
            "  Spirit walks on 4 legs".to_string(),
            "  Spirit gallops at 35 mph!".to_string(),
        ]
    );
}

#[test]
fn capabilities_demo_speaks_and_swims() {
    let duck = Duck::new("Donald");
    assert_eq!(
        capabilities_demo(&duck),
        vec![
            "".to_string(),
            "6. MULTIPLE TRAITS (Duck can Animal + Swimmer):".to_string(),
            light(),
            "  Quack quack!".to_string(),
            "  Donald paddles gracefully across the pond".to_string(),
        ]
    );
}

#[test]
fn provided_demo_describes_dog_and_horse() {
    let dog = Dog::new("Rex", 5, "German Shepherd");
    let horse = Horse::new("Spirit", 35);
    assert_eq!(
        provided_demo(&dog, &horse),
        vec![
            "".to_string(),
            "7. DEFAULT TRAIT METHODS ('Inherited' behavior):".to_string(),
            light(),
            "  Rex says: Woof! I'm a GERMAN SHEPHERD".to_string(),
            "  Spirit says: Neigh!".to_string(),
        ]
    );
}

#[test]
fn takeaways_close_the_demonstration() {
    assert_eq!(
        takeaways(),
        vec![
            "".to_string(),
            heavy(),
            "KEY TAKEAWAYS:".to_string(),
            heavy(),
            "• ABSTRACTION:   Traits define behavior contracts".to_string(),
            "• ENCAPSULATION: Private fields + public getters/setters".to_string(),
            "• POLYMORPHISM:  Trait objects (dyn) or generics".to_string(),
            "• INHERITANCE:   Composition + default trait methods".to_string(),
            heavy(),
        ]
    );
}

#[test]
fn demonstration_prints_as_the_whole_transcript() {
    let expected = "\
============================================================
RUST OOP CONCEPTS DEMONSTRATION
============================================================

1. ENCAPSULATION DEMO:
----------------------------------------
  Dog's age: 5
  After birthday: 6
  After invalid set (100): 6

2. ABSTRACTION DEMO (Traits define interface):
----------------------------------------
  Rex speaks: Woof! I'm a GERMAN SHEPHERD
  Whiskers speaks: Meow~ (comfortable purr)

3. POLYMORPHISM DEMO (Same method, different behavior):
----------------------------------------
  Rex says: Woof! I'm a GERMAN SHEPHERD
  Whiskers says: Meow~ (comfortable purr)
  Shadow says: MEOW! (street cat attitude)
  Donald says: Quack quack!
  Spirit says: Neigh!

4. POLYMORPHISM - Generic functions:
----------------------------------------
  Sound: Woof! I'm a GERMAN SHEPHERD
  Sound: Meow~ (comfortable purr)
  Sound: Quack quack!

5. COMPOSITION ('Inheritance' Rust-style):
----------------------------------------
  Spirit walks on 4 legs
  Spirit gallops at 35 mph!

6. MULTIPLE TRAITS (Duck can Animal + Swimmer):
----------------------------------------
  Quack quack!
  Donald paddles gracefully across the pond

7. DEFAULT TRAIT METHODS ('Inherited' behavior):
----------------------------------------
  Rex says: Woof! I'm a GERMAN SHEPHERD
  Spirit says: Neigh!

============================================================
KEY TAKEAWAYS:
============================================================
• ABSTRACTION:   Traits define behavior contracts
• ENCAPSULATION: Private fields + public getters/setters
• POLYMORPHISM:  Trait objects (dyn) or generics
• INHERITANCE:   Composition + default trait methods
============================================================
";
    let mut printed = String::new();
    for line in demonstration() {
        printed.push_str(&line);
        printed.push('\n');
    }
    assert_eq!(printed, expected);
}

#[test]
fn demonstration_has_one_entry_per_line() {
    let lines = demonstration();
    assert_eq!(lines.len(), 52);
    for line in &lines {
        assert!(!line.contains('\n'));
    }
}
