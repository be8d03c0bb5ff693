use vstd::prelude::*;
use crate::data::settings::AppScreen;

verus! {

/// The home screen; it holds nothing of its own.
#[derive(Clone, Copy, Debug, PartialEq, Eq, Structural)]
pub struct Home {}

/// Messages of the home screen.
#[derive(Clone, Copy, Debug, PartialEq, Eq, Structural)]
pub enum HomeMessage {
    SetScreen(AppScreen),
}

} // verus!
