use automaton_test::service::error::StackPopError;
use automaton_test::service::StackStorage;
use automaton_test::transaction::{Epsilon, PrintTransaction, TransactionItem};

fn text_of(item: TransactionItem) -> &'static str {
    match item {
        TransactionItem::Print(print) => print.0,
        TransactionItem::Epsilon(_) => "epsilon",
    }
}

#[test]
fn pop_returns_what_was_pushed_last() {
    let mut storage: StackStorage<TransactionItem> = StackStorage { tape: vec![] };
    storage.push(PrintTransaction("one"));
    storage.push(Epsilon);
    storage.push(PrintTransaction("three"));
    assert_eq!(storage.tape.len(), 3);

    assert_eq!(text_of(storage.pop().unwrap()), "three");
    assert_eq!(text_of(storage.pop().unwrap()), "epsilon");
    assert_eq!(text_of(storage.pop().unwrap()), "one");
    assert!(storage.tape.is_empty());
}

#[test]
fn push_wraps_a_plain_transaction() {
    let mut storage: StackStorage<TransactionItem> = StackStorage { tape: vec![] };
    storage.push(PrintTransaction("wrapped"));
    assert!(matches!(storage.tape[0], TransactionItem::Print(PrintTransaction("wrapped"))));
}

#[test]
fn push_takes_a_wrapped_transaction_as_it_is() {
    let mut storage: StackStorage<TransactionItem> = StackStorage { tape: vec![] };
    storage.push(TransactionItem::Print(PrintTransaction("as it is")));
    storage.push(TransactionItem::Epsilon(Epsilon));
    assert_eq!(storage.tape.len(), 2);
    assert_eq!(text_of(storage.tape[0].clone()), "as it is");
    assert_eq!(text_of(storage.tape[1].clone()), "epsilon");
}

#[test]
fn pop_of_an_empty_stack_fails_and_leaves_it_empty() {
    let mut storage: StackStorage<TransactionItem> = StackStorage { tape: vec![] };
    let failure: StackPopError = storage.pop().unwrap_err();
    assert_eq!(failure.message(), "Popped too many times!");
    assert!(storage.tape.is_empty());
    assert!(storage.pop().is_err());
}

#[test]
fn pop_after_the_last_item_fails() {
    let mut storage: StackStorage<TransactionItem> = StackStorage { tape: vec![] };
    storage.push(Epsilon);
    assert!(storage.pop().is_ok());
    assert!(storage.pop().is_err());
}

#[test]
fn clone_of_a_stack_is_independent() {
    let mut storage: StackStorage<TransactionItem> = StackStorage { tape: vec![] };
    storage.push(PrintTransaction("kept"));
    let mut copy = storage.clone();
    copy.push(Epsilon);

    assert_eq!(storage.tape.len(), 1);
    assert_eq!(copy.tape.len(), 2);
    assert_eq!(text_of(copy.tape[0].clone()), "kept");
}
