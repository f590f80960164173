//! Building blocks for a state machine whose legal transitions are checked by
//! the type system, and whose action states nest like a stack.

use std::marker::PhantomData;
use vstd::prelude::*;
use vstd::std_specs::convert::IntoSpec;
use crate::function::error::{ErrorKind, MachineError, SnapshottedErrorExt};
use crate::function::helper::{pack_transaction, unpack_transaction};
use crate::function::{ServiceCompliance, State, StateContainer};
use crate::marker::TopLevelMarker;
use crate::model::MachineModel;
use crate::service::StackStorage;
use crate::state::{Action, Finished, Input, Load, Print, Start, Wait};
use crate::stm::{PullupFrom, PushdownFrom, TransitionFrom};
use crate::transaction::{Epsilon, PrintTransaction, TransactionItem, TransactionKind};

pub mod function;
pub mod marker;
pub mod model;
pub mod service;
pub mod state;
pub mod stm;
pub mod transaction;

verus! {

/// The state machine.
///
/// A machine has a `state` and a `transaction` at the least. Services are
/// hooked onto it as further members.
#[derive(Debug)]
pub struct Machine<X> where X: TopLevelMarker + State {
    /// Encodes the current state of the machine, so that the type system
    /// checks each transition. It has no size at runtime.
    pub state: PhantomData<X>,
    /// The transaction object which the current state requires.
    pub transaction: X::Transaction,
    /// Stack storage service, which makes pushdown and pullup possible.
    pub storage: StackStorage<TransactionItem>,
}

impl<X> View for Machine<X> where
    X: TopLevelMarker + State,
    X::Transaction: Into<TransactionItem>,
 {
    type V = MachineModel;

    /// The machine without its state: the current transaction, wrapped, and
    /// the tape of the stack storage.
    open spec fn view(&self) -> MachineModel {
        MachineModel {
            transaction: <X::Transaction as IntoSpec<TransactionItem>>::into_spec(
                self.transaction,
            ),
            tape: self.storage@,
        }
    }
}

impl<X> Clone for Machine<X> where X: TopLevelMarker + State, X::Transaction: Clone {
    /// Copies the machine: its transaction by that type's `clone`, and its
    /// stack item by item.
    fn clone(&self) -> (copy: Self)
        ensures
            cloned(self.transaction, copy.transaction),
            copy.storage@ == self.storage@,
    {
        Machine {
            state: PhantomData,
            transaction: self.transaction.clone(),
            storage: self.storage.clone(),
        }
    }
}

impl<X> StateContainer for Machine<X> where X: TopLevelMarker + State {
    type State = X;
}

impl<X> ServiceCompliance<StackStorage<TransactionItem>> for Machine<X> where
    X: TopLevelMarker + State,
 {
    open spec fn service(&self) -> StackStorage<TransactionItem> {
        self.storage
    }

    open spec fn with_service(self, service: StackStorage<TransactionItem>) -> Self {
        Machine { state: self.state, transaction: self.transaction, storage: service }
    }

    fn get(&self) -> (service: &StackStorage<TransactionItem>) {
        &self.storage
    }

    fn get_mut(&mut self) -> (service: &mut StackStorage<TransactionItem>) {
        &mut self.storage
    }
}

/// Builds a machine in its initial state: waiting for the start, with
/// nothing on its stack.
pub fn new_machine() -> (machine: Machine<Wait<Start>>)
    ensures
        machine@ == (MachineModel {
            transaction: TransactionItem::Epsilon(Epsilon),
            tape: Seq::empty(),
        }),
{
    Machine { state: PhantomData, transaction: Epsilon, storage: StackStorage { tape: Vec::new() } }
}

/* Machine<Wait<Start>> -> Machine<Wait<Input>> */

impl TransitionFrom<Machine<Wait<Start>>> for Machine<Wait<Input>> {
    /// The new machine holds `t`. The stack storage goes over untouched,
    /// whatever `t` is.
    fn transition_from(old: Machine<Wait<Start>>, t: <Self::State as State>::Transaction) -> (new:
        Self)
        ensures
            new@ == old@.transition(TransactionItem::Epsilon(t)),
            new.transaction == t,
            new.storage@ == old.storage@,
    {
        Machine { state: PhantomData, transaction: t, storage: old.storage }
    }
}

/* Machine<Wait<Input>> -> Machine<Finished> */

impl TransitionFrom<Machine<Wait<Input>>> for Machine<Finished> {
    /// The new machine holds `t`. The stack storage goes over untouched,
    /// whatever `t` is.
    fn transition_from(old: Machine<Wait<Input>>, t: <Self::State as State>::Transaction) -> (new:
        Self)
        ensures
            new@ == old@.transition(TransactionItem::Epsilon(t)),
            new.transaction == t,
            new.storage@ == old.storage@,
    {
        Machine { state: PhantomData, transaction: t, storage: old.storage }
    }
}

/* Machine<Wait<Input>> <-> Machine<Action<Print>> */

impl PushdownFrom<Machine<Wait<Input>>, TransactionItem> for Machine<Action<Print>> {
    /// The transaction of the old machine is wrapped and archived on top of
    /// the stack, which grows by that one item. The new machine holds `t`,
    /// not what was archived.
    fn pushdown_from(old: Machine<Wait<Input>>, t: <Self::State as State>::Transaction) -> (new:
        Self)
        ensures
            new@ == old@.pushdown(TransactionItem::Print(t)),
            new.transaction == t,
            new.storage@.len() == old.storage@.len() + 1,
    {
        let ghost before = old;
        let mut old = old;
        // Archive state of the old machine.
        let old_transaction: TransactionItem = pack_transaction(old.transaction);
        ServiceCompliance::<StackStorage<TransactionItem>>::get_mut(&mut old).push(old_transaction);
        assert(old.storage@ =~= before.storage@.push(old_transaction));

        // Build new machine.
        Machine { state: PhantomData, transaction: t, storage: old.storage }
    }
}

impl PullupFrom<Machine<Action<Print>>, TransactionItem> for Machine<Wait<Input>> {
    /// The top of the stack is popped and unwrapped, and the new machine
    /// holds it: the very transaction which the matching pushdown archived.
    ///
    /// # Errors
    /// With an empty stack the failure is a [`ErrorKind::LogicError`], and
    /// the snapshot is the old machine. With a top which is not an `Epsilon`
    /// it is a [`ErrorKind::ConstraintError`], and the snapshot is the old
    /// machine without that top.
    fn pullup_from(old: Machine<Action<Print>>) -> (pulled: Result<
        Self,
        MachineError<Machine<Action<Print>>>,
    >)
        ensures
            match pulled {
                Ok(new) => {
                    &&& old@.pullup(TransactionKind::Epsilon) == Ok::<MachineModel, ErrorKind>(new@)
                    &&& old.storage@.last() == TransactionItem::Epsilon(new.transaction)
                    &&& new.storage@.len() == old.storage@.len() - 1
                },
                Err(error) => {
                    &&& old@.pullup(TransactionKind::Epsilon) == Err::<MachineModel, ErrorKind>(
                        error.kind(),
                    )
                    &&& error.machine()@ == old@.popped()
                },
            },
            old.storage@.len() > 0 && old.storage@.last().kind() != TransactionKind::Epsilon
                ==> pulled is Err && pulled->Err_0.kind() == ErrorKind::ConstraintError,
    {
        let mut old = old;
        // Restore previously stored state.
        let item = ServiceCompliance::<StackStorage<TransactionItem>>::get_mut(&mut old).pop().context(
            ErrorKind::LogicError,
            &old,
        )?;
        let old_transaction = unpack_transaction(item).context(ErrorKind::ConstraintError, &old)?;

        // Build new machine.
        Ok(Machine { state: PhantomData, transaction: old_transaction, storage: old.storage })
    }
}

/* Machine<Action<Print>> <-> Machine<Action<Load>> */

impl PushdownFrom<Machine<Action<Print>>, TransactionItem> for Machine<Action<Load>> {
    /// The transaction of the old machine is wrapped and archived on top of
    /// the stack, which grows by that one item. The new machine holds `t`,
    /// not what was archived.
    fn pushdown_from(old: Machine<Action<Print>>, t: <Self::State as State>::Transaction) -> (new:
        Self)
        ensures
            new@ == old@.pushdown(TransactionItem::Epsilon(t)),
            new.transaction == t,
            new.storage@.len() == old.storage@.len() + 1,
    {
        let ghost before = old;
        let mut old = old;
        // Archive state of the old machine.
        let old_transaction: TransactionItem = pack_transaction(old.transaction);
        ServiceCompliance::<StackStorage<TransactionItem>>::get_mut(&mut old).push(old_transaction);
        assert(old.storage@ =~= before.storage@.push(old_transaction));

        // Build new machine.
        Machine { state: PhantomData, transaction: t, storage: old.storage }
    }
}

impl PullupFrom<Machine<Action<Load>>, TransactionItem> for Machine<Action<Print>> {
    /// The top of the stack is popped and unwrapped, and the new machine
    /// holds it: the very transaction which the matching pushdown archived.
    ///
    /// # Errors
    /// With an empty stack the failure is a [`ErrorKind::LogicError`], and
    /// the snapshot is the old machine. With a top which is not a `Print` it
    /// is a [`ErrorKind::ConstraintError`], and the snapshot is the old
    /// machine without that top.
    fn pullup_from(old: Machine<Action<Load>>) -> (pulled: Result<
        Self,
        MachineError<Machine<Action<Load>>>,
    >)
        ensures
            match pulled {
                Ok(new) => {
                    &&& old@.pullup(TransactionKind::Print) == Ok::<MachineModel, ErrorKind>(new@)
                    &&& old.storage@.last() == TransactionItem::Print(new.transaction)
                    &&& new.storage@.len() == old.storage@.len() - 1
                },
                Err(error) => {
                    &&& old@.pullup(TransactionKind::Print) == Err::<MachineModel, ErrorKind>(
                        error.kind(),
                    )
                    &&& error.machine()@ == old@.popped()
                },
            },
            old.storage@.len() > 0 && old.storage@.last().kind() != TransactionKind::Print
                ==> pulled is Err && pulled->Err_0.kind() == ErrorKind::ConstraintError,
    {
        let mut old = old;
        // Restore previously stored state.
        let item = ServiceCompliance::<StackStorage<TransactionItem>>::get_mut(&mut old).pop().context(
            ErrorKind::LogicError,
            &old,
        )?;
        let old_transaction = unpack_transaction(item).context(ErrorKind::ConstraintError, &old)?;

        // Build new machine.
        Ok(Machine { state: PhantomData, transaction: old_transaction, storage: old.storage })
    }
}

} // verus!
