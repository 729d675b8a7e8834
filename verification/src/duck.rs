//! The duck: an animal that is also a swimmer.

use vstd::prelude::*;
use vstd::string::StringExecFns;
use crate::animal::{Animal, Swimmer};

verus! {

/// What a duck is, mathematically.
pub struct DuckView {
    pub name: Seq<char>,
}

/// A duck with a name.
pub struct Duck {
    name: String,
}

impl View for Duck {
    type V = DuckView;

    closed spec fn view(&self) -> DuckView {
        DuckView { name: self.name@ }
    }
}

/// What every duck says.
pub open spec fn quack_text() -> Seq<char> {
    "Quack quack!"@
}

/// How a duck of the given name swims.
pub open spec fn paddle_text(name: Seq<char>) -> Seq<char> {
    name + " paddles gracefully across the pond"@
}

impl Duck {
    /// Creates a duck.
    pub fn new(name: &str) -> (duck: Self)
        ensures
            duck@ == (DuckView { name: name@ }),
    {
        Self { name: String::from_str(name) }
    }
}

impl Animal for Duck {
    open spec fn speech(&self) -> Seq<char> {
        quack_text()
    }

    open spec fn name_text(&self) -> Seq<char> {
        self@.name
    }

    fn speak(&self) -> (said: String) {
        String::from_str("Quack quack!")
    }

    fn name(&self) -> (name: &str) {
        self.name.as_str()
    }
}

impl Swimmer for Duck {
    open spec fn swim_text(&self) -> Seq<char> {
        paddle_text(self@.name)
    }

    fn swim(&self) -> (text: String)
        ensures
            text@ == self.swim_text(),
    {
        let mut text = self.name.clone();
        text.append(" paddles gracefully across the pond");
        text
    }
}

/// A duck held as a trait object says, and is named, what the duck itself
/// says and is named.
pub proof fn lemma_duck_as_object(duck: &Duck)
    ensures
        ({
            let object: &dyn Animal = duck;
            object.speech() == duck.speech() && object.name_text() == duck.name_text()
        }),
{
}

} // verus!
