use vstd::prelude::*;

verus! {

/// The script list of the first dashboard layout; it holds nothing yet.
#[derive(Clone, Copy, Debug, PartialEq, Eq, Structural)]
pub struct Scripts {}

impl Scripts {
    pub fn new() -> (r: Self)
        ensures
            r == (Scripts {}),
    {
        Self {}
    }
}

} // verus!
