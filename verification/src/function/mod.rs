//! The core functionality items of the system.

use vstd::prelude::*;
use crate::marker::Service;

pub mod error;
pub mod helper;

verus! {

/// Anything that could act as a container of states: the state machine itself.
pub trait StateContainer {
    /// Type of the state the machine currently resides in.
    type State;
}

/// Any state that is present in the state machine.
pub trait State {
    /// Type of the payload which must be provided when transitioning into the
    /// state represented by the enclosing type.
    type Transaction;
}

/// Implements a certain service on the state machine.
///
/// Exactly one object of each service type can be hooked onto the same machine.
pub trait ServiceCompliance<S> where S: Service, Self: StateContainer + Sized {
    /// The service object `S` that the machine holds.
    spec fn service(&self) -> S;

    /// The same machine with `service` in the place of its service object `S`.
    spec fn with_service(self, service: S) -> Self;

    /// Retrieves an immutable reference to service `S`.
    fn get(&self) -> (service: &S)
        ensures
            *service == self.service(),
    ;

    /// Retrieves a mutable reference to service `S`. Whatever is written
    /// through it changes that service and nothing else of the machine.
    fn get_mut(&mut self) -> (service: &mut S)
        ensures
            *service == old(self).service(),
            *final(self) == old(self).with_service(*final(service)),
    ;
}

} // verus!
