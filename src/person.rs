use vstd::prelude::*;

verus! {

/// Ages offered by the editing dialog run from zero up to, not including, this bound.
pub const AGE_LIMIT: usize = 100;

/// Age given to a freshly created record.
pub const DEFAULT_AGE: usize = 13;

/// The mathematical value of a [`Person`]: its three fields.
pub ghost struct PersonView {
    pub name: Seq<char>,
    pub age: usize,
    pub has_phone: bool,
}

/// The record a new person starts from: "New Person", 13 years old, no phone.
pub open spec fn default_person() -> PersonView {
    PersonView { name: "New Person"@, age: DEFAULT_AGE, has_phone: false }
}

/// One tracked individual.
#[derive(Debug)]
pub struct Person {
    name: String,
    age: usize,
    has_phone: bool,
}

impl View for Person {
    type V = PersonView;

    closed spec fn view(&self) -> PersonView {
        PersonView { name: self.name@, age: self.age, has_phone: self.has_phone }
    }
}

impl Person {
    /// A record with the given fields.
    pub fn new(name: String, age: usize, has_phone: bool) -> (r: Person)
        ensures
            r@ == (PersonView { name: name@, age, has_phone }),
    {
        Person { name, age, has_phone }
    }

    pub fn name(&self) -> (r: &String)
        ensures
            r@ == self@.name,
    {
        &self.name
    }

    pub fn age(&self) -> (r: usize)
        ensures
            r == self@.age,
    {
        self.age
    }

    pub fn has_phone(&self) -> (r: bool)
        ensures
            r == self@.has_phone,
    {
        self.has_phone
    }

    /// The text under which the record is shown: its name.
    pub fn to_display_label(&self) -> (r: String)
        ensures
            r@ == self@.name,
    {
        self.name.clone()
    }

    /// A copy of the record, field for field.
    pub fn duplicate(&self) -> (r: Person)
        ensures
            r@ == self@,
    {
        Person { name: self.name.clone(), age: self.age, has_phone: self.has_phone }
    }
}

impl Default for Person {
    fn default() -> (r: Person)
        ensures
            r@ == default_person(),
    {
        let name = String::from_str("New Person");
        Person { name, age: DEFAULT_AGE, has_phone: false }
    }
}

impl Clone for Person {
    fn clone(&self) -> (r: Person)
        ensures
            r@ == self@,
    {
        self.duplicate()
    }
}

impl PartialEq for Person {
    /// Structural equality: all three fields agree.
    fn eq(&self, other: &Person) -> (r: bool) {
        self.name == other.name && self.age == other.age && self.has_phone == other.has_phone
    }
}

impl vstd::std_specs::cmp::PartialEqSpecImpl for Person {
    open spec fn obeys_eq_spec() -> bool {
        true
    }

    open spec fn eq_spec(&self, other: &Person) -> bool {
        self@ == other@
    }
}

} // verus!
