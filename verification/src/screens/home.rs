use vstd::prelude::*;

verus! {

/// Messages that the home screen sends.
#[derive(Clone, Copy, Debug, PartialEq, Eq, Structural)]
pub enum HomeMessage {
    GotoDashboard,
}

/// The home screen; it holds nothing of its own.
#[derive(Clone, Copy, Debug, PartialEq, Eq, Structural)]
pub struct Home {}

impl Home {
    pub fn new() -> (r: Self)
        ensures
            r == (Home {}),
    {
        Self {}
    }

    /// Handles a message; the home screen has nothing to change.
    pub fn update(&mut self, message: &HomeMessage)
        ensures
            *final(self) == *old(self),
    {
        match message {
            _ => {},
        }
    }
}

} // verus!
