//! The horse, composed over a base that every walking animal could share.

use vstd::prelude::*;
use vstd::string::StringExecFns;
use crate::animal::Animal;
use crate::text::{decimal_string, decimal_text};

verus! {

/// The number of legs every horse is built with.
pub const HORSE_LEGS: u8 = 4;

/// What an animal base is, mathematically.
pub struct AnimalBaseView {
    pub name: Seq<char>,
    pub legs: u8,
}

/// The state and behaviour shared by animals that walk: a name and a number
/// of legs.
pub struct AnimalBase {
    name: String,
    legs: u8,
}

impl View for AnimalBase {
    type V = AnimalBaseView;

    closed spec fn view(&self) -> AnimalBaseView {
        AnimalBaseView { name: self.name@, legs: self.legs }
    }
}

/// How an animal of the given name and number of legs walks.
pub open spec fn walk_text(name: Seq<char>, legs: nat) -> Seq<char> {
    name + " walks on "@ + decimal_text(legs) + " legs"@
}

/// How a horse of the given name and speed gallops.
pub open spec fn gallop_text(name: Seq<char>, speed_mph: nat) -> Seq<char> {
    name + " gallops at "@ + decimal_text(speed_mph) + " mph!"@
}

/// What every horse says.
pub open spec fn neigh_text() -> Seq<char> {
    "Neigh!"@
}

impl AnimalBase {
    /// Creates a base.
    pub fn new(name: &str, legs: u8) -> (base: Self)
        ensures
            base@ == (AnimalBaseView { name: name@, legs: legs }),
    {
        Self { name: String::from_str(name), legs }
    }

    /// Returns `"<name> walks on <legs> legs"`.
    pub fn walk(&self) -> (text: String)
        ensures
            text@ == walk_text(self@.name, self@.legs as nat),
    {
        let mut text = self.name.clone();
        text.append(" walks on ");
        let legs = decimal_string(self.legs as u32);
        text.append(legs.as_str());
        text.append(" legs");
        text
    }
}

/// What a horse is, mathematically: its base and its speed.
pub struct HorseView {
    pub base: AnimalBaseView,
    pub speed_mph: u32,
}

/// A horse: an [`AnimalBase`] with [`HORSE_LEGS`] legs, held by value, and a
/// speed. Walking is left to the base; galloping is the horse's own.
pub struct Horse {
    base: AnimalBase,
    speed_mph: u32,
}

impl View for Horse {
    type V = HorseView;

    closed spec fn view(&self) -> HorseView {
        HorseView { base: self.base@, speed_mph: self.speed_mph }
    }
}

impl Horse {
    /// Every horse stands on [`HORSE_LEGS`] legs.
    #[verifier::type_invariant]
    spec fn four_legged(self) -> bool {
        self.base@.legs == HORSE_LEGS
    }

    /// Creates a horse with [`HORSE_LEGS`] legs.
    pub fn new(name: &str, speed_mph: u32) -> (horse: Self)
        ensures
            horse@ == (HorseView {
                base: AnimalBaseView { name: name@, legs: HORSE_LEGS },
                speed_mph: speed_mph,
            }),
    {
        Self { base: AnimalBase::new(name, HORSE_LEGS), speed_mph }
    }

    /// Returns what the base's [`AnimalBase::walk`] returns; for a horse that
    /// is always a walk on [`HORSE_LEGS`] legs.
    pub fn walk(&self) -> (text: String)
        ensures
            text@ == walk_text(self@.base.name, self@.base.legs as nat),
            self@.base.legs == HORSE_LEGS,
    {
        proof {
            use_type_invariant(self);
        }
        self.base.walk()
    }

    /// Returns `"<name> gallops at <speed> mph!"`.
    pub fn gallop(&self) -> (text: String)
        ensures
            text@ == gallop_text(self@.base.name, self@.speed_mph as nat),
    {
        let mut text = self.base.name.clone();
        text.append(" gallops at ");
        let speed = decimal_string(self.speed_mph);
        text.append(speed.as_str());
        text.append(" mph!");
        text
    }
}

impl Animal for Horse {
    open spec fn speech(&self) -> Seq<char> {
        neigh_text()
    }

    open spec fn name_text(&self) -> Seq<char> {
        self@.base.name
    }

    fn speak(&self) -> (said: String) {
        String::from_str("Neigh!")
    }

    fn name(&self) -> (name: &str) {
        self.base.name.as_str()
    }
}

/// A horse held as a trait object says, and is named, what the horse itself
/// says and is named.
pub proof fn lemma_horse_as_object(horse: &Horse)
    ensures
        ({
            let object: &dyn Animal = horse;
            object.speech() == horse.speech() && object.name_text() == horse.name_text()
        }),
{
}

} // verus!
