use vstd::prelude::*;

verus! {

/// The screens of the first layout.
#[derive(Clone, Copy, Debug, PartialEq, Eq, Structural)]
pub enum Screen {
    Home,
    Dashboard,
}

} // verus!
