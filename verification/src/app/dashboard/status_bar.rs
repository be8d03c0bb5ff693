use vstd::prelude::*;
use crate::app::task::Task;

verus! {

/// The dashboard's status bar; it holds nothing of its own.
#[derive(Clone, Copy, Debug, PartialEq, Eq, Structural)]
pub struct StatusBar {}

/// A message to the status bar; it carries nothing and changes nothing.
#[derive(Clone, Copy, Debug, PartialEq, Eq, Structural)]
pub struct StatusBarMessage {}

impl StatusBar {
    pub fn new() -> (r: (Self, Task<StatusBarMessage, StatusBarMessage>))
        ensures
            r.1 is Nothing,
    {
        (Self {}, Task::Nothing)
    }

    pub fn update(&mut self, _message: StatusBarMessage) -> (r: Task<StatusBarMessage, StatusBarMessage>)
        ensures
            r is Nothing,
            *final(self) == *old(self),
    {
        Task::Nothing
    }
}

} // verus!
