//! Vegetables and appetizers.
use vstd::prelude::*;

verus! {

/// A vegetable, by name; its id is kept to itself.
pub struct Vegetable {
    pub name: String,
    id: i32,
}

impl Vegetable {
    /// The name of this vegetable.
    pub closed spec fn spec_name(&self) -> Seq<char> {
        self.name@
    }

    /// The id of this vegetable.
    pub closed spec fn spec_id(&self) -> i32 {
        self.id
    }

    /// A vegetable called `name`, with the first id.
    pub fn new(name: &str) -> (r: Vegetable)
        ensures
            r.spec_name() == name@,
            r.spec_id() == 1,
    {
        Vegetable { name: String::from_str(name), id: 1 }
    }
}

/// A starter.
#[derive(Clone, Copy, Debug, PartialEq, Eq, Structural)]
pub enum Appetizer {
    Soup,
    Salad,
}

} // verus!
