//! The state machine as a mathematical value, and the laws of its stack
//! discipline.
//!
//! The model forgets the state a machine is tagged with. What is left is the
//! transaction the machine holds and the tape of archived transactions, both
//! in their wrapped form. The three kinds of move are functions on that
//! value, and the contracts of the executable transitions are stated over
//! them.

use vstd::prelude::*;
use crate::function::error::ErrorKind;
use crate::transaction::{TransactionItem, TransactionKind};

verus! {

/// What a machine holds, whatever state it is in.
pub struct MachineModel {
    /// The transaction of the current state, wrapped.
    pub transaction: TransactionItem,
    /// The archived transactions, from the bottom of the stack to its top.
    pub tape: Seq<TransactionItem>,
}

impl MachineModel {
    /// A direct transition: the machine takes the new transaction `t`, and
    /// the tape stays as it is.
    pub open spec fn transition(self, t: TransactionItem) -> MachineModel {
        MachineModel { transaction: t, tape: self.tape }
    }

    /// A pushdown: the current transaction is archived on top of the tape,
    /// and the machine takes the new transaction `t`.
    pub open spec fn pushdown(self, t: TransactionItem) -> MachineModel {
        MachineModel { transaction: t, tape: self.tape.push(self.transaction) }
    }

    /// The machine once the top of its tape has been taken off, if there was
    /// one: the state in which a pullup is when it inspects what it popped.
    pub open spec fn popped(self) -> MachineModel {
        if self.tape.len() == 0 {
            self
        } else {
            MachineModel { transaction: self.transaction, tape: self.tape.drop_last() }
        }
    }

    /// A pullup into a state whose transaction is of the variant `expected`.
    ///
    /// An empty tape is a logic error, and a top of another variant is a
    /// constraint error. Otherwise the top of the tape becomes the current
    /// transaction again and leaves the tape.
    pub open spec fn pullup(self, expected: TransactionKind) -> Result<MachineModel, ErrorKind> {
        if self.tape.len() == 0 {
            Err(ErrorKind::LogicError)
        } else if self.tape.last().kind() != expected {
            Err(ErrorKind::ConstraintError)
        } else {
            Ok(MachineModel { transaction: self.tape.last(), tape: self.tape.drop_last() })
        }
    }

    /// One pushdown for each transaction of `ts`, in their order.
    pub open spec fn pushdowns(self, ts: Seq<TransactionItem>) -> MachineModel
        decreases ts.len(),
    {
        if ts.len() == 0 {
            self
        } else {
            self.pushdowns(ts.drop_last()).pushdown(ts.last())
        }
    }

    /// One pullup for each variant of `expected`, in their order. The first
    /// failure ends the sequence.
    pub open spec fn pullups(self, expected: Seq<TransactionKind>) -> Result<
        MachineModel,
        ErrorKind,
    >
        decreases expected.len(),
    {
        if expected.len() == 0 {
            Ok(self)
        } else {
            match self.pullup(expected.first()) {
                Ok(pulled) => pulled.pullups(expected.drop_first()),
                Err(kind) => Err(kind),
            }
        }
    }

    /// The variants to expect when the pushdowns of `ts` are undone one by
    /// one, last first: each pullup goes back into the state its pushdown
    /// came from, and so expects the transaction which that state held.
    pub open spec fn unwinding(self, ts: Seq<TransactionItem>) -> Seq<TransactionKind>
        decreases ts.len(),
    {
        if ts.len() == 0 {
            Seq::empty()
        } else {
            seq![self.pushdowns(ts.drop_last()).transaction.kind()] + self.unwinding(
                ts.drop_last(),
            )
        }
    }
}

/// A pullup which matches the pushdown before it undoes that pushdown: the
/// machine is what it was, transaction and tape.
pub proof fn lemma_pullup_undoes_pushdown(machine: MachineModel, t: TransactionItem)
    ensures
        machine.pushdown(t).pullup(machine.transaction.kind()) == Ok::<MachineModel, ErrorKind>(
            machine,
        ),
{
    assert(machine.tape.push(machine.transaction).drop_last() =~= machine.tape);
}

/// Pairing: after any number of pushdowns, followed at once by as many
/// pullups, each into the state which the corresponding pushdown left, the
/// machine holds the transaction it held before the first pushdown, and its
/// tape is what it was then.
pub proof fn lemma_pairing(machine: MachineModel, ts: Seq<TransactionItem>)
    ensures
        machine.unwinding(ts).len() == ts.len(),
        machine.pushdowns(ts).pullups(machine.unwinding(ts)) == Ok::<MachineModel, ErrorKind>(
            machine,
        ),
    decreases ts.len(),
{
    if ts.len() > 0 {
        let before = machine.pushdowns(ts.drop_last());
        let rest = machine.unwinding(ts.drop_last());
        let expected = machine.unwinding(ts);
        lemma_pairing(machine, ts.drop_last());
        lemma_pullup_undoes_pushdown(before, ts.last());
        assert(expected.first() == before.transaction.kind());
        assert(expected.drop_first() =~= rest);
    }
}

/// Depth: a run of pushdowns, with no pullup among them, lengthens the tape
/// by one item for each pushdown, and a pullup which then succeeds shortens
/// it by exactly one.
pub proof fn lemma_depth(
    machine: MachineModel,
    ts: Seq<TransactionItem>,
    expected: TransactionKind,
)
    ensures
        machine.pushdowns(ts).tape.len() == machine.tape.len() + ts.len(),
        machine.pushdowns(ts).pullup(expected) matches Ok(pulled) ==> pulled.tape.len()
            == machine.tape.len() + ts.len() - 1,
    decreases ts.len(),
{
    if ts.len() > 0 {
        lemma_depth(machine, ts.drop_last(), expected);
    }
}

} // verus!
