use std::convert::TryFrom;

use automaton_test::function::error::RuntimeConstraintError;
use automaton_test::function::helper::{pack_transaction, unpack_transaction};
use automaton_test::transaction::{Epsilon, PrintTransaction, TransactionItem, TransactionKind};

#[test]
fn pack_wraps_each_transaction_in_its_own_variant() {
    let packed: TransactionItem = pack_transaction(Epsilon);
    assert!(matches!(packed, TransactionItem::Epsilon(Epsilon)));

    let packed: TransactionItem = pack_transaction(PrintTransaction("Hello"));
    assert!(matches!(packed, TransactionItem::Print(PrintTransaction("Hello"))));
}

#[test]
fn from_wraps_each_transaction_in_its_own_variant() {
    assert!(matches!(TransactionItem::from(Epsilon), TransactionItem::Epsilon(_)));
    assert!(matches!(
        TransactionItem::from(PrintTransaction("x")),
        TransactionItem::Print(PrintTransaction("x"))
    ));
}

#[test]
fn unpack_gives_back_what_was_packed() {
    let packed: TransactionItem = pack_transaction(PrintTransaction("round trip"));
    let unpacked: PrintTransaction = unpack_transaction(packed).unwrap();
    assert_eq!(unpacked.0, "round trip");

    let packed: TransactionItem = pack_transaction(Epsilon);
    let unpacked: Result<Epsilon, RuntimeConstraintError> = unpack_transaction(packed);
    assert!(unpacked.is_ok());
}

#[test]
fn unpack_of_print_as_epsilon_is_refused() {
    let unpacked: Result<Epsilon, RuntimeConstraintError> =
        unpack_transaction(TransactionItem::Print(PrintTransaction("Hello")));
    let refusal = unpacked.unwrap_err();
    assert_eq!(refusal.expected, "TransactionItem::Epsilon");
    assert_eq!(refusal.factual, "Print(PrintTransaction(\"Hello\"))");
    assert_eq!(
        refusal.message(),
        "Constraint violation detected! Expected `TransactionItem::Epsilon`, provided `Print(PrintTransaction(\"Hello\"))`"
    );
}

#[test]
fn unpack_of_epsilon_as_print_is_refused() {
    let unpacked: Result<PrintTransaction, RuntimeConstraintError> =
        unpack_transaction(TransactionItem::Epsilon(Epsilon));
    let refusal = unpacked.unwrap_err();
    assert_eq!(refusal.expected, "TransactionItem::Print");
    assert_eq!(refusal.factual, "Epsilon(Epsilon)");
    assert_eq!(
        refusal.message(),
        "Constraint violation detected! Expected `TransactionItem::Print`, provided `Epsilon(Epsilon)`"
    );
}

#[test]
fn try_from_takes_only_its_own_variant() {
    assert!(Epsilon::try_from(TransactionItem::Epsilon(Epsilon)).is_ok());
    assert!(Epsilon::try_from(TransactionItem::Print(PrintTransaction("p"))).is_err());
    assert_eq!(
        PrintTransaction::try_from(TransactionItem::Print(PrintTransaction("p"))).unwrap().0,
        "p"
    );
    assert!(PrintTransaction::try_from(TransactionItem::Epsilon(Epsilon)).is_err());
}

#[test]
fn rendering_reads_as_the_debug_form() {
    let items = vec![
        TransactionItem::Epsilon(Epsilon),
        TransactionItem::Print(PrintTransaction("Hello")),
        TransactionItem::Print(PrintTransaction("")),
        TransactionItem::Print(PrintTransaction("a \"quoted\" word\nand a new line\t\\")),
    ];
    for item in items {
        assert_eq!(item.rendering(), format!("{:?}", item));
    }
}

#[test]
fn rendering_of_each_variant() {
    assert_eq!(TransactionItem::Epsilon(Epsilon).rendering(), "Epsilon(Epsilon)");
    assert_eq!(
        TransactionItem::Print(PrintTransaction("Hello")).rendering(),
        "Print(PrintTransaction(\"Hello\"))"
    );
    assert_eq!(
        TransactionItem::Print(PrintTransaction("say \"hi\"")).rendering(),
        "Print(PrintTransaction(\"say \\\"hi\\\"\"))"
    );
}

#[test]
fn clone_of_an_item_keeps_variant_and_transaction() {
    let item = TransactionItem::Print(PrintTransaction("again"));
    assert!(matches!(item.clone(), TransactionItem::Print(PrintTransaction("again"))));
    assert!(matches!(TransactionItem::Epsilon(Epsilon).clone(), TransactionItem::Epsilon(_)));
}

#[test]
fn kinds_can_be_told_apart() {
    assert_eq!(TransactionKind::Epsilon, TransactionKind::Epsilon);
    assert_ne!(TransactionKind::Epsilon, TransactionKind::Print);
}

#[test]
fn constraint_error_is_built_from_expected_and_factual() {
    let refusal = RuntimeConstraintError::from(("three".to_string(), "four".to_string()));
    assert_eq!(refusal.expected, "three");
    assert_eq!(refusal.factual, "four");
    assert_eq!(
        refusal.message(),
        "Constraint violation detected! Expected `three`, provided `four`"
    );
}
