//! The actor state and the argument and return records of its constructor.
use vstd::prelude::*;

verus! {

/// Marks a type whose values are actor state kept in the actor store.
pub trait Actor {
}

/// A toy actor holding one counter.
#[derive(Debug, Clone, Copy, PartialEq, Eq, Structural)]
pub struct CoolActor {
    value: u32,
}

impl Actor for CoolActor {

}

/// Arguments of the actor's constructor: none.
#[derive(Debug, Clone, Copy, PartialEq, Eq, Structural)]
pub struct NewParams {}

/// What the actor's constructor returns: nothing.
#[derive(Debug, Clone, Copy, PartialEq, Eq, Structural)]
pub struct NewReturn {}

impl CoolActor {
    /// The counter.
    pub closed spec fn spec_value(&self) -> u32 {
        self.value
    }

    /// A new actor, its counter at zero.
    pub fn new(_params: NewParams) -> (r: CoolActor)
        ensures
            r.spec_value() == 0,
    {
        CoolActor { value: 0 }
    }

    /// An actor whose counter reads `value`, as when its state is read back.
    pub fn with_value(value: u32) -> (r: CoolActor)
        ensures
            r.spec_value() == value,
    {
        CoolActor { value }
    }

    /// The counter.
    pub fn value(&self) -> (r: u32)
        ensures
            r == self.spec_value(),
    {
        self.value
    }
}

/// The guest's plain export: `a` plus one, wrapping at the top of the range.
pub fn add_one(a: i32) -> (r: i32)
    ensures
        a < i32::MAX ==> r == a + 1,
        a == i32::MAX ==> r == i32::MIN,
{
    if a == i32::MAX {
        i32::MIN
    } else {
        a + 1
    }
}

} // verus!
