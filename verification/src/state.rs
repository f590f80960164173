//! Types which encode the states to be used by a state machine.
//!
//! No value of these types is ever built: a machine carries its state as a
//! type parameter only.

use vstd::prelude::*;
use crate::function::State;
use crate::marker::{ActionableMarker, TopLevelMarker, WaitableMarker};
use crate::transaction::{Epsilon, PrintTransaction};

verus! {

/// State indicating a pause until an input event has been generated.
#[derive(Debug, Clone)]
pub struct Wait<W: WaitableMarker>(W);

impl<W> State for Wait<W> where W: WaitableMarker + State {
    type Transaction = W::Transaction;
}

impl<W> TopLevelMarker for Wait<W> where W: WaitableMarker {
}

/// Wait condition: until the machine has been started.
#[derive(Debug, Clone)]
pub struct Start();

impl State for Start {
    type Transaction = Epsilon;
}

impl WaitableMarker for Start {
}

/// Wait condition: until the user has provided input.
#[derive(Debug, Clone)]
pub struct Input();

impl State for Input {
    type Transaction = Epsilon;
}

impl WaitableMarker for Input {
}

/// State indicating that the execution of a specific action is in progress.
#[derive(Debug, Clone)]
pub struct Action<A: ActionableMarker>(A);

impl<A> State for Action<A> where A: ActionableMarker + State {
    type Transaction = A::Transaction;
}

impl<A> TopLevelMarker for Action<A> where A: ActionableMarker {
}

/// Action condition: loading is in progress.
#[derive(Debug, Clone)]
pub struct Load();

impl State for Load {
    type Transaction = Epsilon;
}

impl ActionableMarker for Load {
}

/// Action condition: printing is in progress.
#[derive(Debug, Clone)]
pub struct Print();

impl State for Print {
    type Transaction = PrintTransaction;
}

impl ActionableMarker for Print {
}

/// State indicating finalization of the state machine.
///
/// It cannot have any outgoing transitions: it is meant to be terminal.
#[derive(Debug, Clone)]
pub struct Finished();

impl State for Finished {
    type Transaction = Epsilon;
}

impl TopLevelMarker for Finished {
}

} // verus!
