use std::marker::PhantomData;

use automaton_test::function::error::{ErrorKind, MachineError, SnapshottedErrorExt};
use automaton_test::service::error::StackPopError;
use automaton_test::service::StackStorage;
use automaton_test::state::{Action, Print};
use automaton_test::transaction::{Epsilon, PrintTransaction, TransactionItem};
use automaton_test::Machine;

fn printing(text: &'static str, tape: Vec<TransactionItem>) -> Machine<Action<Print>> {
    Machine {
        state: PhantomData,
        transaction: PrintTransaction(text),
        storage: StackStorage { tape },
    }
}

#[test]
fn each_kind_has_its_message() {
    assert_eq!(
        ErrorKind::ConstraintError.message(),
        "An operation failed to meet required constraints"
    );
    assert_eq!(ErrorKind::LogicError.message(), "A logical error ocurred");
}

#[test]
fn kinds_compare_by_variant() {
    assert_eq!(ErrorKind::LogicError, ErrorKind::LogicError);
    assert_ne!(ErrorKind::LogicError, ErrorKind::ConstraintError);
}

#[test]
fn context_lets_a_success_pass() {
    let machine = printing("fine", vec![]);
    let result: Result<u32, StackPopError> = Ok(7);
    let annotated: Result<u32, MachineError<Machine<Action<Print>>>> =
        result.context(ErrorKind::LogicError, &machine);
    assert_eq!(annotated.unwrap(), 7);
}

#[test]
fn context_files_a_failure_with_a_snapshot() {
    let machine = printing("seen", vec![TransactionItem::Epsilon(Epsilon)]);
    let result: Result<u32, StackPopError> = Err(StackPopError);
    let failure = result.context(ErrorKind::ConstraintError, &machine).unwrap_err();

    assert_eq!(failure.kind(), ErrorKind::ConstraintError);
    assert_eq!(failure.message(), "An operation failed to meet required constraints");
    assert_eq!(failure.machine().transaction.0, "seen");
    assert_eq!(failure.machine().storage.tape.len(), 1);
}

#[test]
fn context_keeps_the_kind_it_was_given() {
    let machine = printing("m", vec![]);
    let result: Result<(), &str> = Err("whatever went wrong");
    let failure = result.context(ErrorKind::LogicError, &machine).unwrap_err();
    assert_eq!(failure.kind(), ErrorKind::LogicError);
    assert_eq!(failure.message(), "A logical error ocurred");
}

#[test]
fn snapshot_does_not_follow_later_changes() {
    let mut machine = printing("then", vec![]);
    let result: Result<(), StackPopError> = Err(StackPopError);
    let failure = result.context(ErrorKind::LogicError, &machine).unwrap_err();

    machine.storage.push(Epsilon);
    machine.transaction = PrintTransaction("now");

    assert_eq!(failure.machine().transaction.0, "then");
    assert!(failure.machine().storage.tape.is_empty());
}

#[test]
fn machine_error_has_a_readable_rendering() {
    let machine = printing("shown", vec![]);
    let result: Result<(), StackPopError> = Err(StackPopError);
    let failure = result.context(ErrorKind::LogicError, &machine).unwrap_err();
    let text = format!("{:?}", failure);
    assert!(text.contains("LogicError"));
    assert!(text.contains("shown"));
}
