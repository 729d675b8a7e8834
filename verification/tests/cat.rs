use animals::animal::Animal;
use animals::cat::Cat;

#[test]
fn indoor_cat_purrs() {
    assert_eq!(Cat::new("Whiskers", true).speak(), "Meow~ (comfortable purr)");
}

#[test]
fn street_cat_has_attitude() {
    assert_eq!(Cat::new("Shadow", false).speak(), "MEOW! (street cat attitude)");
}

#[test]
fn cat_speech_does_not_depend_on_the_name() {
    assert_eq!(Cat::new("", true).speak(), Cat::new("Whiskers", true).speak());
    assert_eq!(Cat::new("", false).speak(), Cat::new("Shadow", false).speak());
}

#[test]
fn cat_has_its_name() {
    assert_eq!(Cat::new("Whiskers", true).name(), "Whiskers");
    assert_eq!(Cat::new("Shadow", false).name(), "Shadow");
}

#[test]
fn cat_describes_itself() {
    let cat = Cat::new("Whiskers", true);
    assert_eq!(cat.describe(), "Whiskers says: Meow~ (comfortable purr)");
    assert_eq!(cat.describe(), format!("{} says: {}", cat.name(), cat.speak()));
    let street_cat = Cat::new("Shadow", false);
    assert_eq!(street_cat.describe(), "Shadow says: MEOW! (street cat attitude)");
    assert_eq!(
        street_cat.describe(),
        format!("{} says: {}", street_cat.name(), street_cat.speak())
    );
}
