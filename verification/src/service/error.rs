//! Error types of the services.

use vstd::prelude::*;

verus! {

/// Raised when the stack storage has no items left and is asked to pop
/// another one.
#[derive(Debug)]
pub struct StackPopError;

impl StackPopError {
    /// The text shown to the user for this error.
    pub fn message(&self) -> (text: String)
        ensures
            text@ == "Popped too many times!"@,
    {
        String::from_str("Popped too many times!")
    }
}

} // verus!
