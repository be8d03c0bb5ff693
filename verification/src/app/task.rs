use vstd::prelude::*;

verus! {

/// What a screen asks to happen after it handled a message: `M` is the
/// screen's message type, `R` the requests for outside work (database,
/// clipboard, files), whose outcomes come back to the screen as messages.
#[derive(Debug)]
pub enum Task<M, R> {
    /// Nothing.
    Nothing,
    /// Handle this message next.
    Done(M),
    /// Handle these messages next, one after the other.
    Chain(Vec<M>),
    /// Carry out this request.
    Perform(R),
}

} // verus!
