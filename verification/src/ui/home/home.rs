use vstd::prelude::*;

verus! {

/// The home screen; it holds nothing of its own.
#[derive(Clone, Copy, Debug, PartialEq, Eq, Structural)]
pub struct Home {}

impl Home {
    pub fn new() -> (r: Self)
        ensures
            r == (Home {}),
    {
        Self {}
    }
}

} // verus!
