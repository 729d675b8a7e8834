//! The demonstration: a fixed cast of animals shown section by section, as
//! the lines of text that a console is to print.

use vstd::prelude::*;
use vstd::string::StringExecFns;
use crate::animal::{
    description, introduce_all, introduction, introductions, make_sound, sound_line, Animal,
    Swimmer,
};
use crate::cat::{meow_text, Cat};
use crate::dog::{age_after_set, woof_text, Dog, DogView};
use crate::duck::{paddle_text, quack_text, Duck};
use crate::horse::{gallop_text, neigh_text, walk_text, Horse, HORSE_LEGS};
use crate::text::{decimal_string, decimal_text, indent, indented, repeat_text, repeated, uppercase_of};

verus! {

/// The width of the rule that frames the demonstration.
pub const HEAVY_RULE_WIDTH: usize = 60;

/// The width of the rule under each section's title.
pub const LIGHT_RULE_WIDTH: usize = 40;

/// The age the dog is given on its birthday.
pub const BIRTHDAY_AGE: u8 = 6;

/// An age that no dog accepts.
pub const INVALID_AGE: u8 = 100;

/// The rule that frames the demonstration.
pub open spec fn heavy_rule() -> Seq<char> {
    repeated("="@, HEAVY_RULE_WIDTH as nat)
}

/// The rule under each section's title.
pub open spec fn light_rule() -> Seq<char> {
    repeated("-"@, LIGHT_RULE_WIDTH as nat)
}

/// How a section opens: an empty line, its title and a light rule.
pub open spec fn heading_lines(title: Seq<char>) -> Seq<Seq<char>> {
    seq![Seq::empty(), title, light_rule()]
}

/// The lines that open the demonstration.
pub open spec fn title_lines() -> Seq<Seq<char>> {
    seq![heavy_rule(), "RUST OOP CONCEPTS DEMONSTRATION"@, heavy_rule()]
}

/// The section on encapsulation, for a dog that starts at `age`: its age at
/// first, after its birthday, and after an invalid age was tried.
pub open spec fn encapsulation_lines(age: u8) -> Seq<Seq<char>> {
    let after_birthday = age_after_set(age, BIRTHDAY_AGE);
    let after_invalid = age_after_set(after_birthday, INVALID_AGE);
    heading_lines("1. ENCAPSULATION DEMO:"@) + seq![
        "  Dog's age: "@ + decimal_text(age as nat),
        "  After birthday: "@ + decimal_text(after_birthday as nat),
        "  After invalid set (100): "@ + decimal_text(after_invalid as nat),
    ]
}

/// The line that reports, by name, what an animal says.
pub open spec fn speaks_line(name: Seq<char>, speech: Seq<char>) -> Seq<char> {
    "  "@ + name + " speaks: "@ + speech
}

/// The section on abstraction: what the dog and the cat say.
pub open spec fn abstraction_lines(
    dog_name: Seq<char>,
    dog_speech: Seq<char>,
    cat_name: Seq<char>,
    cat_speech: Seq<char>,
) -> Seq<Seq<char>> {
    heading_lines("2. ABSTRACTION DEMO (Traits define interface):"@) + seq![
        speaks_line(dog_name, dog_speech),
        speaks_line(cat_name, cat_speech),
    ]
}

/// The section on trait objects: the given introductions under its heading.
pub open spec fn object_lines(introduced: Seq<Seq<char>>) -> Seq<Seq<char>> {
    heading_lines("3. POLYMORPHISM DEMO (Same method, different behavior):"@) + introduced
}

/// The section on generic functions: what the dog, the cat and the duck say.
pub open spec fn generic_lines(
    dog_speech: Seq<char>,
    cat_speech: Seq<char>,
    duck_speech: Seq<char>,
) -> Seq<Seq<char>> {
    heading_lines("4. POLYMORPHISM - Generic functions:"@) + seq![
        sound_line(dog_speech),
        sound_line(cat_speech),
        sound_line(duck_speech),
    ]
}

/// The section on composition: how a horse walks and gallops.
pub open spec fn composition_lines(name: Seq<char>, speed_mph: u32) -> Seq<Seq<char>> {
    heading_lines("5. COMPOSITION ('Inheritance' Rust-style):"@) + seq![
        indented(walk_text(name, HORSE_LEGS as nat)),
        indented(gallop_text(name, speed_mph as nat)),
    ]
}

/// The section on several capabilities: what a duck says and how it swims.
pub open spec fn capabilities_lines(name: Seq<char>) -> Seq<Seq<char>> {
    heading_lines("6. MULTIPLE TRAITS (Duck can Animal + Swimmer):"@) + seq![
        indented(quack_text()),
        indented(paddle_text(name)),
    ]
}

/// The section on provided methods: how the dog and the horse describe
/// themselves.
pub open spec fn provided_lines(
    dog_name: Seq<char>,
    dog_speech: Seq<char>,
    horse_name: Seq<char>,
    horse_speech: Seq<char>,
) -> Seq<Seq<char>> {
    heading_lines("7. DEFAULT TRAIT METHODS ('Inherited' behavior):"@) + seq![
        indented(description(dog_name, dog_speech)),
        indented(description(horse_name, horse_speech)),
    ]
}

/// The lines that close the demonstration.
pub open spec fn takeaway_lines() -> Seq<Seq<char>> {
    seq![
        Seq::empty(),
        heavy_rule(),
        "KEY TAKEAWAYS:"@,
        heavy_rule(),
        "• ABSTRACTION:   Traits define behavior contracts"@,
        "• ENCAPSULATION: Private fields + public getters/setters"@,
        "• POLYMORPHISM:  Trait objects (dyn) or generics"@,
        "• INHERITANCE:   Composition + default trait methods"@,
        heavy_rule(),
    ]
}

/// The whole demonstration with its cast: Rex, a German Shepherd of five
/// years; Whiskers, an indoor cat; Shadow, a street cat; Donald, a duck; and
/// Spirit, a horse that runs 35 mph.
pub open spec fn transcript() -> Seq<Seq<char>> {
    let rex_says = woof_text(uppercase_of("German Shepherd"@));
    title_lines() + encapsulation_lines(5) + abstraction_lines(
        "Rex"@,
        rex_says,
        "Whiskers"@,
        meow_text(true),
    ) + object_lines(
        seq![
            introduction("Rex"@, rex_says),
            introduction("Whiskers"@, meow_text(true)),
            introduction("Shadow"@, meow_text(false)),
            introduction("Donald"@, quack_text()),
            introduction("Spirit"@, neigh_text()),
        ],
    ) + generic_lines(rex_says, meow_text(true), quack_text()) + composition_lines("Spirit"@, 35)
        + capabilities_lines("Donald"@) + provided_lines(
        "Rex"@,
        rex_says,
        "Spirit"@,
        neigh_text(),
    ) + takeaway_lines()
}

/// Adds one line at the end.
fn put(lines: &mut Vec<String>, line: String)
    ensures
        final(lines).deep_view() == old(lines).deep_view().push(line@),
{
    lines.push(line);
    assert(lines.deep_view() =~= old(lines).deep_view().push(line@));
}

/// Adds the lines of `more` at the end, in order.
fn put_all(lines: &mut Vec<String>, more: Vec<String>)
    ensures
        final(lines).deep_view() == old(lines).deep_view() + more.deep_view(),
{
    let mut more = more;
    let ghost added = more.deep_view();
    lines.append(&mut more);
    assert(lines.deep_view() =~= old(lines).deep_view() + added);
}

/// Returns `label` followed by `n` in decimal.
fn numbered(label: &str, n: u8) -> (line: String)
    ensures
        line@ == label@ + decimal_text(n as nat),
{
    let mut line = String::from_str(label);
    let number = decimal_string(n as u32);
    line.append(number.as_str());
    line
}

/// Returns the lines that open a section.
fn heading(title: &str) -> (lines: Vec<String>)
    ensures
        lines.deep_view() == heading_lines(title@),
{
    let mut lines: Vec<String> = Vec::new();
    put(&mut lines, String::new());
    put(&mut lines, String::from_str(title));
    put(&mut lines, repeat_text("-", LIGHT_RULE_WIDTH));
    assert(lines.deep_view() =~= heading_lines(title@));
    lines
}

/// Returns the lines that open the demonstration.
pub fn title() -> (lines: Vec<String>)
    ensures
        lines.deep_view() == title_lines(),
{
    let mut lines: Vec<String> = Vec::new();
    put(&mut lines, repeat_text("=", HEAVY_RULE_WIDTH));
    put(&mut lines, String::from_str("RUST OOP CONCEPTS DEMONSTRATION"));
    put(&mut lines, repeat_text("=", HEAVY_RULE_WIDTH));
    assert(lines.deep_view() =~= title_lines());
    lines
}

/// Shows encapsulation on `dog`: reports its age, gives it
/// [`BIRTHDAY_AGE`], reports again, tries [`INVALID_AGE`] and reports once
/// more. The dog is left at [`BIRTHDAY_AGE`].
pub fn encapsulation_demo(dog: &mut Dog) -> (lines: Vec<String>)
    ensures
        lines.deep_view() == encapsulation_lines(old(dog)@.age),
        final(dog)@ == (DogView { age: BIRTHDAY_AGE, ..old(dog)@ }),
{
    let mut lines = heading("1. ENCAPSULATION DEMO:");
    put(&mut lines, numbered("  Dog's age: ", dog.get_age()));
    dog.set_age(BIRTHDAY_AGE);
    put(&mut lines, numbered("  After birthday: ", dog.get_age()));
    dog.set_age(INVALID_AGE);
    put(&mut lines, numbered("  After invalid set (100): ", dog.get_age()));
    assert(lines.deep_view() =~= encapsulation_lines(old(dog)@.age));
    lines
}

/// Returns the line that reports, by name, what an animal says.
fn speaks<A: Animal>(animal: &A) -> (line: String)
    ensures
        line@ == speaks_line(animal.name_text(), animal.speech()),
{
    let mut line = String::from_str("  ");
    line.append(animal.name());
    line.append(" speaks: ");
    let said = animal.speak();
    line.append(said.as_str());
    line
}

/// Shows abstraction: the dog and the cat speak through the same interface.
pub fn abstraction_demo(dog: &Dog, cat: &Cat) -> (lines: Vec<String>)
    ensures
        lines.deep_view() == abstraction_lines(
            dog.name_text(),
            dog.speech(),
            cat.name_text(),
            cat.speech(),
        ),
{
    let mut lines = heading("2. ABSTRACTION DEMO (Traits define interface):");
    put(&mut lines, speaks(dog));
    put(&mut lines, speaks(cat));
    assert(lines.deep_view() =~= abstraction_lines(
        dog.name_text(),
        dog.speech(),
        cat.name_text(),
        cat.speech(),
    ));
    lines
}

/// Shows dispatch through trait objects: every animal of the collection is
/// introduced, in order.
pub fn object_demo(animals: &Vec<&dyn Animal>) -> (lines: Vec<String>)
    ensures
        lines.deep_view() == object_lines(introductions(animals@)),
{
    let mut lines = heading("3. POLYMORPHISM DEMO (Same method, different behavior):");
    put_all(&mut lines, introduce_all(animals));
    lines
}

/// Shows dispatch through a generic function, once per concrete type.
pub fn generic_demo(dog: &Dog, cat: &Cat, duck: &Duck) -> (lines: Vec<String>)
    ensures
        lines.deep_view() == generic_lines(dog.speech(), cat.speech(), duck.speech()),
{
    let mut lines = heading("4. POLYMORPHISM - Generic functions:");
    put(&mut lines, make_sound(dog));
    put(&mut lines, make_sound(cat));
    put(&mut lines, make_sound(duck));
    assert(lines.deep_view() =~= generic_lines(dog.speech(), cat.speech(), duck.speech()));
    lines
}

/// Shows composition: the horse walks as its base does and gallops on its
/// own.
pub fn composition_demo(horse: &Horse) -> (lines: Vec<String>)
    ensures
        lines.deep_view() == composition_lines(horse@.base.name, horse@.speed_mph),
{
    let mut lines = heading("5. COMPOSITION ('Inheritance' Rust-style):");
    let walk = horse.walk();
    put(&mut lines, indent(walk.as_str()));
    let gallop = horse.gallop();
    put(&mut lines, indent(gallop.as_str()));
    assert(lines.deep_view() =~= composition_lines(horse@.base.name, horse@.speed_mph));
    lines
}

/// Shows two capabilities on one type: the duck speaks and swims.
pub fn capabilities_demo(duck: &Duck) -> (lines: Vec<String>)
    ensures
        lines.deep_view() == capabilities_lines(duck@.name),
{
    let mut lines = heading("6. MULTIPLE TRAITS (Duck can Animal + Swimmer):");
    let said = duck.speak();
    put(&mut lines, indent(said.as_str()));
    let swum = duck.swim();
    put(&mut lines, indent(swum.as_str()));
    assert(lines.deep_view() =~= capabilities_lines(duck@.name));
    lines
}

/// Shows the provided method: the dog and the horse describe themselves
/// without either type having written how.
pub fn provided_demo(dog: &Dog, horse: &Horse) -> (lines: Vec<String>)
    ensures
        lines.deep_view() == provided_lines(
            dog.name_text(),
            dog.speech(),
            horse.name_text(),
            horse.speech(),
        ),
{
    let mut lines = heading("7. DEFAULT TRAIT METHODS ('Inherited' behavior):");
    let dog_text = dog.describe();
    put(&mut lines, indent(dog_text.as_str()));
    let horse_text = horse.describe();
    put(&mut lines, indent(horse_text.as_str()));
    assert(lines.deep_view() =~= provided_lines(
        dog.name_text(),
        dog.speech(),
        horse.name_text(),
        horse.speech(),
    ));
    lines
}

/// Returns the lines that close the demonstration.
pub fn takeaways() -> (lines: Vec<String>)
    ensures
        lines.deep_view() == takeaway_lines(),
{
    let mut lines: Vec<String> = Vec::new();
    put(&mut lines, String::new());
    put(&mut lines, repeat_text("=", HEAVY_RULE_WIDTH));
    put(&mut lines, String::from_str("KEY TAKEAWAYS:"));
    put(&mut lines, repeat_text("=", HEAVY_RULE_WIDTH));
    put(&mut lines, String::from_str("• ABSTRACTION:   Traits define behavior contracts"));
    put(&mut lines, String::from_str("• ENCAPSULATION: Private fields + public getters/setters"));
    put(&mut lines, String::from_str("• POLYMORPHISM:  Trait objects (dyn) or generics"));
    put(&mut lines, String::from_str("• INHERITANCE:   Composition + default trait methods"));
    put(&mut lines, repeat_text("=", HEAVY_RULE_WIDTH));
    assert(lines.deep_view() =~= takeaway_lines());
    lines
}

/// Runs the whole demonstration and returns its lines, in the order in
/// which they are to be printed.
pub fn demonstration() -> (lines: Vec<String>)
    ensures
        lines.deep_view() == transcript(),
{
    let mut dog = Dog::new("Rex", 5, "German Shepherd");
    let cat = Cat::new("Whiskers", true);
    let street_cat = Cat::new("Shadow", false);
    let duck = Duck::new("Donald");
    let horse = Horse::new("Spirit", 35);

    let mut lines = title();
    put_all(&mut lines, encapsulation_demo(&mut dog));
    put_all(&mut lines, abstraction_demo(&dog, &cat));
    let animals: Vec<&dyn Animal> = vec![&dog, &cat, &street_cat, &duck, &horse];
    assert(introductions(animals@) =~= seq![
        introduction(dog.name_text(), dog.speech()),
        introduction(cat.name_text(), cat.speech()),
        introduction(street_cat.name_text(), street_cat.speech()),
        introduction(duck.name_text(), duck.speech()),
        introduction(horse.name_text(), horse.speech()),
    ]);
    put_all(&mut lines, object_demo(&animals));
    put_all(&mut lines, generic_demo(&dog, &cat, &duck));
    put_all(&mut lines, composition_demo(&horse));
    put_all(&mut lines, capabilities_demo(&duck));
    put_all(&mut lines, provided_demo(&dog, &horse));
    put_all(&mut lines, takeaways());
    lines
}

} // verus!
