//! Primitive traits which the core components use as bounds.
//!
//! None of them has a method: each one only sorts a type into a class, so that
//! the hidden parts of the system stay decoupled from the types a developer adds.

use vstd::prelude::*;

verus! {

/// Types used to transition between state machine states.
pub trait Transaction {
}

/// Types which gather several transactions into one sized structure, so that
/// transactions of different types can be stored side by side.
pub trait TransactionContainer {
}

/// Types which attribute functionality to state machines.
pub trait Service {
}

/// (State) types which are directly contained by the state machine.
pub trait TopLevelMarker {
}

/// (State) types which stand for a pause until an input event arrives.
pub trait WaitableMarker {
}

/// (State) types which stand for a nested action that is in progress.
pub trait ActionableMarker {
}

} // verus!
