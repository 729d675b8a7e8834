//! The cat: what it says depends on where it lives.

use vstd::prelude::*;
use vstd::string::StringExecFns;
use crate::animal::Animal;

verus! {

/// What a cat is, mathematically.
pub struct CatView {
    pub name: Seq<char>,
    pub indoor: bool,
}

/// A cat with a name, living indoors or on the street.
pub struct Cat {
    name: String,
    indoor: bool,
}

impl View for Cat {
    type V = CatView;

    closed spec fn view(&self) -> CatView {
        CatView { name: self.name@, indoor: self.indoor }
    }
}

/// What a cat says: a purr indoors, a louder call on the street.
pub open spec fn meow_text(indoor: bool) -> Seq<char> {
    if indoor {
        "Meow~ (comfortable purr)"@
    } else {
        "MEOW! (street cat attitude)"@
    }
}

impl Cat {
    /// Creates a cat.
    pub fn new(name: &str, indoor: bool) -> (cat: Self)
        ensures
            cat@ == (CatView { name: name@, indoor: indoor }),
    {
        Self { name: String::from_str(name), indoor }
    }
}

impl Animal for Cat {
    open spec fn speech(&self) -> Seq<char> {
        meow_text(self@.indoor)
    }

    open spec fn name_text(&self) -> Seq<char> {
        self@.name
    }

    fn speak(&self) -> (said: String) {
        if self.indoor {
            String::from_str("Meow~ (comfortable purr)")
        } else {
            String::from_str("MEOW! (street cat attitude)")
        }
    }

    fn name(&self) -> (name: &str) {
        self.name.as_str()
    }
}

/// A cat held as a trait object says, and is named, what the cat itself says
/// and is named.
pub proof fn lemma_cat_as_object(cat: &Cat)
    ensures
        ({
            let object: &dyn Animal = cat;
            object.speech() == cat.speech() && object.name_text() == cat.name_text()
        }),
{
}

} // verus!
