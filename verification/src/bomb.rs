use vstd::prelude::*;

verus! {

/// An armed marker meant to be defused before it is released. The marker only
/// records whether `defuse` has been called; acting on an armed marker at
/// release time (say, by crashing) is a runtime concern for an unverified
/// shell — verified code never panics.
#[derive(Debug)]
pub struct DropBomb {
    defused: bool,
    value: u32,
    description: String,
}

impl DropBomb {
    pub closed spec fn is_defused(&self) -> bool {
        self.defused
    }

    /// Creates an armed marker.
    pub fn new() -> (b: DropBomb)
        ensures
            !b.is_defused(),
    {
        DropBomb { defused: false, value: 42, description: "a bomb".to_owned() }
    }

    /// Reports whether the marker has been defused.
    pub fn defused(&self) -> (d: bool)
        ensures
            d == self.is_defused(),
    {
        self.defused
    }

    /// Defuses the marker; once defused it stays defused.
    pub fn defuse(&mut self)
        ensures
            final(self).is_defused(),
    {
        self.defused = true;
    }
}

impl Default for DropBomb {
    /// The default marker is armed, exactly as `new` builds it.
    fn default() -> (b: Self)
        ensures
            !b.is_defused(),
    {
        DropBomb::new()
    }
}

} // verus!
