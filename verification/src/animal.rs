//! The two capabilities an animal may have: speaking and swimming.

use vstd::prelude::*;
use vstd::string::StringExecFns;
use crate::text::{indent, indented};

verus! {

/// The sentence in which an animal's name introduces what it says.
pub open spec fn description(name: Seq<char>, speech: Seq<char>) -> Seq<char> {
    name + " says: "@ + speech
}

/// The text a swimmer gives when its type says nothing more specific.
pub open spec fn generic_swim_text() -> Seq<char> {
    "Swimming..."@
}

/// The line that introduces an animal: its description, indented.
pub open spec fn introduction(name: Seq<char>, speech: Seq<char>) -> Seq<char> {
    indented(description(name, speech))
}

/// The line that reports what an animal says.
pub open spec fn sound_line(speech: Seq<char>) -> Seq<char> {
    "  Sound: "@ + speech
}

/// The introductions of the animals of a collection, in order.
pub open spec fn introductions(animals: Seq<&dyn Animal>) -> Seq<Seq<char>> {
    Seq::new(
        animals.len(),
        |i: int| introduction(animals[i].name_text(), animals[i].speech()),
    )
}

/// Something that has a name and can speak.
///
/// `speech` and `name_text` are the mathematical content of `speak` and
/// `name`. `describe` is provided once for every implementor, and its
/// contract binds an implementor that overrides it as well.
pub trait Animal {
    /// What the animal says.
    spec fn speech(&self) -> Seq<char>;

    /// The animal's name.
    spec fn name_text(&self) -> Seq<char>;

    /// Returns what the animal says.
    fn speak(&self) -> (said: String)
        ensures
            said@ == self.speech(),
    ;

    /// Returns the animal's name.
    fn name(&self) -> (name: &str)
        ensures
            name@ == self.name_text(),
    ;

    /// Returns `"<name> says: <speech>"`.
    fn describe(&self) -> (text: String)
        ensures
            text@ == description(self.name_text(), self.speech()),
    {
        let mut text = String::from_str(self.name());
        text.append(" says: ");
        let said = self.speak();
        text.append(said.as_str());
        text
    }
}

/// Something that can swim. Independent of [`Animal`].
pub trait Swimmer {
    /// What `swim` returns. Left as it is, the generic text.
    open spec fn swim_text(&self) -> Seq<char> {
        generic_swim_text()
    }

    /// Returns the swimming text. The provided body gives the generic text,
    /// so it serves every type that leaves `swim_text` as it is; a type that
    /// changes `swim_text` overrides this method too and states its own text.
    fn swim(&self) -> (text: String)
        ensures
            self.swim_text() == generic_swim_text() ==> text@ == generic_swim_text(),
    {
        String::from_str("Swimming...")
    }
}

/// Builds the introduction of one animal, whatever stands behind the
/// reference.
fn introduce<A: Animal + ?Sized>(animal: &A) -> (line: String)
    ensures
        line@ == introduction(animal.name_text(), animal.speech()),
{
    let text = animal.describe();
    indent(text.as_str())
}

/// Returns the line that introduces an animal held as a trait object: two
/// spaces, then its description.
pub fn introduce_animal(animal: &dyn Animal) -> (line: String)
    ensures
        line@ == introduction(animal.name_text(), animal.speech()),
{
    introduce(animal)
}

/// Returns the line that reports what an animal of a statically known type
/// says.
pub fn make_sound<T: Animal>(animal: &T) -> (line: String)
    ensures
        line@ == sound_line(animal.speech()),
{
    let mut line = String::from_str("  Sound: ");
    let said = animal.speak();
    line.append(said.as_str());
    line
}

/// Introduces every animal of a mixed collection, in order.
pub fn introduce_all(animals: &Vec<&dyn Animal>) -> (lines: Vec<String>)
    ensures
        lines.deep_view() == introductions(animals@),
{
    let mut lines: Vec<String> = Vec::new();
    let mut i: usize = 0;
    while i < animals.len()
        invariant
            i <= animals.len(),
            lines.len() == i,
            forall|j: int| 0 <= j < i ==> (#[trigger] lines[j])@ == introductions(animals@)[j],
        decreases animals.len() - i,
    {
        let line = introduce(animals[i]);
        lines.push(line);
        i += 1;
    }
    assert(lines.deep_view() =~= introductions(animals@));
    lines
}

} // verus!
