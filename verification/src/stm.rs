//! Traits enforcing state machine behaviour.
//!
//! A move from one state into another is legal exactly when the destination
//! implements the matching `..From` trait for the source. The `..Into` traits
//! only turn the call around, so that it can be written on the source.

use vstd::prelude::*;
use crate::function::error::{ErrorKind, MachineError};
use crate::function::{ServiceCompliance, State, StateContainer};
use crate::marker::{Transaction, TransactionContainer};
use crate::service::StackStorage;

verus! {

/// State machines residing in a certain state, which transform one-sided
/// into a next type.
///
/// A machine is said to transition from A into B when its current state is A,
/// a transaction object for state B is provided, and [A -> B] is valid.
pub trait TransitionFrom<T> where
    T: StateContainer + 'static,
    Self: StateContainer + Sized + 'static,
    Self::State: State + 'static,
    <Self::State as State>::Transaction: Transaction + Copy + 'static,
 {
    /// Transition from the provided state into the implementing state.
    fn transition_from(old: T, t: <Self::State as State>::Transaction) -> Self;
}

/// Syntax simplifying trait in accordance to [`TransitionFrom`].
pub trait TransitionInto<T> where
    T: StateContainer + 'static,
    Self: StateContainer + Sized + 'static,
    T::State: State + 'static,
    <T::State as State>::Transaction: Transaction + Copy + 'static,
 {
    /// Transition from Self into the desired state.
    fn transition(self, t: <T::State as State>::Transaction) -> T;
}

impl<T, S> TransitionInto<T> for S where
    S: StateContainer + 'static,
    T: TransitionFrom<S> + StateContainer,
    T::State: State + 'static,
    <T::State as State>::Transaction: Transaction + Copy + 'static,
 {
    /// Hands the call to [`TransitionFrom::transition_from`] of the
    /// destination: what comes back is what that function gives.
    fn transition(self, t: <T::State as State>::Transaction) -> (new: T)
        ensures
            call_ensures(T::transition_from, (self, t), new),
    {
        T::transition_from(self, t)
    }
}

/// State machines residing in a certain state, which transform one-sided
/// into a next type, while the transaction object of the previous state is
/// stored for re-use.
///
/// Each pushdown must be followed by the matching pullup, so that pushes onto
/// and pops from the stack storage pair up.
pub trait PushdownFrom<T, TTC> where
    TTC: TransactionContainer + 'static,
    T: StateContainer + 'static,
    Self: StateContainer + ServiceCompliance<StackStorage<TTC>> + 'static,
    Self::State: State + 'static,
    <Self::State as State>::Transaction: Transaction + Copy + 'static,
 {
    /// Transition from the provided state into the implementing state. The
    /// stack of the new machine holds what was archived.
    fn pushdown_from(old: T, t: <Self::State as State>::Transaction) -> (new: Self)
        ensures
            new.service()@.len() > 0,
    ;
}

/// Syntax simplifying trait in accordance to [`PushdownFrom`].
pub trait PushdownInto<T, TTC> where
    TTC: TransactionContainer + 'static,
    T: StateContainer + 'static,
    T::State: State + 'static,
    <T::State as State>::Transaction: Transaction + Copy + 'static,
    Self: StateContainer + Sized + 'static,
 {
    /// Transition from Self into the desired state.
    fn pushdown(self, t: <T::State as State>::Transaction) -> T;
}

impl<T, TTC, S> PushdownInto<T, TTC> for S where
    S: StateContainer + 'static,
    TTC: TransactionContainer + 'static,
    T: PushdownFrom<S, TTC> + StateContainer + 'static,
    T::State: State + 'static,
    <T::State as State>::Transaction: Transaction + Copy + 'static,
 {
    /// Hands the call to [`PushdownFrom::pushdown_from`] of the destination:
    /// what comes back is what that function gives.
    fn pushdown(self, t: <T::State as State>::Transaction) -> (new: T)
        ensures
            call_ensures(T::pushdown_from, (self, t), new),
            new.service()@.len() > 0,
    {
        T::pushdown_from(self, t)
    }
}

/// State machines residing in a certain state, which transform one-sided
/// into a previous type, while the transaction object of that previous state
/// is loaded and restored.
///
/// A machine is said to pull up from B into A when its current state is B
/// and [A <- B] is valid.
pub trait PullupFrom<T, TTC> where
    TTC: TransactionContainer + 'static,
    T: StateContainer + ServiceCompliance<StackStorage<TTC>> + 'static,
    Self: StateContainer + Sized + 'static,
    Self::State: State + 'static,
    <Self::State as State>::Transaction: Transaction + 'static,
 {
    /// Transition from the provided state into the implementing state.
    ///
    /// # Errors
    /// A check at runtime prevents a pullup which does not match the
    /// pushdown before it, first in, last out. With nothing on the stack
    /// there is no pushdown to match: that, and nothing else, is a
    /// [`ErrorKind::LogicError`].
    fn pullup_from(old: T) -> (pulled: Result<Self, MachineError<T>>)
        ensures
            old.service()@.len() == 0 <==> pulled is Err && pulled->Err_0.kind()
                == ErrorKind::LogicError,
    ;
}

/// Syntax simplifying trait in accordance to [`PullupFrom`].
pub trait PullupInto<T, TTC> where
    TTC: TransactionContainer + 'static,
    T: StateContainer + 'static,
    T::State: State + 'static,
    <T::State as State>::Transaction: Transaction + 'static,
    Self: StateContainer + ServiceCompliance<StackStorage<TTC>> + Sized + 'static,
 {
    /// Transition from Self into the desired state.
    ///
    /// # Errors
    /// As [`PullupFrom::pullup_from`]: an empty stack, and nothing else, is a
    /// [`ErrorKind::LogicError`].
    fn pullup(self) -> (pulled: Result<T, MachineError<Self>>)
        ensures
            self.service()@.len() == 0 <==> pulled is Err && pulled->Err_0.kind()
                == ErrorKind::LogicError,
    ;
}

impl<T, TTC, S> PullupInto<T, TTC> for S where
    S: StateContainer + ServiceCompliance<StackStorage<TTC>> + 'static,
    TTC: TransactionContainer + 'static,
    T: PullupFrom<S, TTC> + StateContainer + 'static,
    T::State: State + 'static,
    <T::State as State>::Transaction: Transaction + Copy + 'static,
 {
    /// Hands the call to [`PullupFrom::pullup_from`] of the destination: what
    /// comes back is what that function gives.
    fn pullup(self) -> (pulled: Result<T, MachineError<S>>)
        ensures
            call_ensures(T::pullup_from, (self,), pulled),
    {
        T::pullup_from(self)
    }
}

} // verus!
