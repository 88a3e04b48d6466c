use vstd::prelude::*;

verus! {

/// The errors that the engine reports.
#[derive(Debug, Clone, Copy, PartialEq, Eq, Structural)]
pub enum TypingError {
    /// An argument is outside what the operation accepts: an empty word
    /// list, or a request for zero words.
    InvalidInput,
}

} // verus!
