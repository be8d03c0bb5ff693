use vstd::prelude::*;

verus! {

/// The screens of the second layout.
#[derive(Clone, Copy, Debug, PartialEq, Eq, Structural)]
pub enum Screen {
    Home,
    Dashboard,
    Settings,
}

} // verus!
