pub mod home;
pub mod screen;

use vstd::prelude::*;

verus! {

/// The home screen; it holds nothing of its own.
#[derive(Clone, Copy, Debug, PartialEq, Eq, Structural)]
pub struct Home {}

/// Messages of the home screen.
#[derive(Clone, Copy, Debug, PartialEq, Eq, Structural)]
pub enum HomeMessage {
    GotoDashboard,
}

impl Home {
    pub fn new() -> (r: Self)
        ensures
            r == (Home {}),
    {
        Self {}
    }
}

} // verus!
