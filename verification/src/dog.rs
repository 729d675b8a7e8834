//! The dog: private state behind a constructor, a getter and a validating
//! setter.

use vstd::prelude::*;
use vstd::string::StringExecFns;
use crate::animal::Animal;
use crate::text::uppercase_of;

verus! {

/// The oldest age that [`Dog::set_age`] accepts.
pub const MAX_DOG_AGE: u8 = 25;

/// What a dog is, mathematically.
pub struct DogView {
    pub name: Seq<char>,
    pub age: u8,
    pub breed: Seq<char>,
}

/// A dog with a name, an age and a breed. The fields are private: the age is
/// read with [`Dog::get_age`] and changed with [`Dog::set_age`] only.
pub struct Dog {
    name: String,
    age: u8,
    breed: String,
}

impl View for Dog {
    type V = DogView;

    closed spec fn view(&self) -> DogView {
        DogView { name: self.name@, age: self.age, breed: self.breed@ }
    }
}

/// The age a dog has after a request to set it: the requested age when that
/// is at most [`MAX_DOG_AGE`], the current age otherwise.
pub open spec fn age_after_set(current: u8, requested: u8) -> u8 {
    if requested <= MAX_DOG_AGE {
        requested
    } else {
        current
    }
}

/// What a dog of the given breed, already in the form it is shown in, says.
pub open spec fn woof_text(shown_breed: Seq<char>) -> Seq<char> {
    "Woof! I'm a "@ + shown_breed
}

/// A requested age of at most [`MAX_DOG_AGE`] becomes the dog's age.
pub proof fn lemma_age_in_range_is_taken(current: u8, requested: u8)
    requires
        requested <= MAX_DOG_AGE,
    ensures
        age_after_set(current, requested) == requested,
{
}

/// A requested age above [`MAX_DOG_AGE`] leaves the dog's age as it was.
pub proof fn lemma_age_out_of_range_is_ignored(current: u8, requested: u8)
    requires
        requested > MAX_DOG_AGE,
    ensures
        age_after_set(current, requested) == current,
{
}

/// Setting never takes an age that is at most [`MAX_DOG_AGE`] above it.
pub proof fn lemma_age_stays_in_range(current: u8, requested: u8)
    requires
        current <= MAX_DOG_AGE,
    ensures
        age_after_set(current, requested) <= MAX_DOG_AGE,
{
}

/// Returns what a dog says, given its breed in the form it is shown in.
pub fn woof(shown_breed: &str) -> (said: String)
    ensures
        said@ == woof_text(shown_breed@),
{
    let mut said = String::from_str("Woof! I'm a ");
    said.append(shown_breed);
    said
}

impl Dog {
    /// Creates a dog. The age is stored as given.
    pub fn new(name: &str, age: u8, breed: &str) -> (dog: Self)
        ensures
            dog@ == (DogView { name: name@, age: age, breed: breed@ }),
    {
        Self { name: String::from_str(name), age, breed: String::from_str(breed) }
    }

    /// Returns the current age.
    pub fn get_age(&self) -> (age: u8)
        ensures
            age == self@.age,
    {
        self.age
    }

    /// Sets the age when `age` is at most [`MAX_DOG_AGE`]. A larger value is
    /// dropped silently and the dog stays as it was.
    pub fn set_age(&mut self, age: u8)
        ensures
            final(self)@ == (DogView { age: age_after_set(old(self)@.age, age), ..old(self)@ }),
            age <= MAX_DOG_AGE ==> final(self)@.age == age,
            age > MAX_DOG_AGE ==> final(self)@ == old(self)@,
            old(self)@.age <= MAX_DOG_AGE ==> final(self)@.age <= MAX_DOG_AGE,
    {
        if age <= MAX_DOG_AGE {
            self.age = age;
        }
    }

    /// The breed in the form it is shown in: upper case.
    fn format_breed(&self) -> (shown: String)
        ensures
            shown@ == uppercase_of(self@.breed),
    {
        self.breed.as_str().to_uppercase()
    }
}

impl Animal for Dog {
    open spec fn speech(&self) -> Seq<char> {
        woof_text(uppercase_of(self@.breed))
    }

    open spec fn name_text(&self) -> Seq<char> {
        self@.name
    }

    fn speak(&self) -> (said: String) {
        let shown = self.format_breed();
        woof(shown.as_str())
    }

    fn name(&self) -> (name: &str) {
        self.name.as_str()
    }
}

/// A dog held as a trait object says, and is named, what the dog itself says
/// and is named.
pub proof fn lemma_dog_as_object(dog: &Dog)
    ensures
        ({
            let object: &dyn Animal = dog;
            object.speech() == dog.speech() && object.name_text() == dog.name_text()
        }),
{
}

} // verus!
