//! Types used to convey transition related information.

use vstd::prelude::*;
use crate::function::error::RuntimeConstraintError;
use crate::marker::{Transaction, TransactionContainer};

verus! {

/// The text that std's `Debug` gives for a string slice with the characters
/// `text`: the slice between double quotes, with its special characters escaped.
pub uninterp spec fn quoted(text: Seq<char>) -> Seq<char>;

/// Calls std's `Debug` formatting of `str`. Believed, not proved: the text
/// that comes back depends on the characters of `text` alone, and `quoted`
/// is the name it goes by.
#[verifier::external_body]
fn quote(text: &str) -> (rendered: String)
    ensures
        rendered@ == quoted(text@),
{
    format!("{:?}", text)
}

/// Empty transaction object.
///
/// The name is taken from automata theory, where an epsilon move consumes no
/// input: no information is needed to transition into the next state.
#[derive(Debug, Clone, Copy)]
pub struct Epsilon;

impl Transaction for Epsilon {
}

/// Transaction to be received by states with printing behaviour: the text
/// to print.
#[derive(Debug, Clone, Copy)]
pub struct PrintTransaction(pub &'static str);

impl Transaction for PrintTransaction {
}

/// The variants of [`TransactionItem`], without their payloads.
#[derive(Debug, Clone, Copy, PartialEq, Eq, Structural)]
pub enum TransactionKind {
    /// Stands for [`TransactionItem::Epsilon`].
    Epsilon,
    /// Stands for [`TransactionItem::Print`].
    Print,
}

/// All known transaction structures wrapped into one sized item.
#[derive(Debug)]
pub enum TransactionItem {
    /// See [`Epsilon`].
    Epsilon(Epsilon),
    /// See [`PrintTransaction`].
    Print(PrintTransaction),
}

impl TransactionContainer for TransactionItem {
}

impl Clone for TransactionItem {
    fn clone(&self) -> (copy: Self)
        ensures
            copy == *self,
    {
        match self {
            TransactionItem::Epsilon(x) => TransactionItem::Epsilon(*x),
            TransactionItem::Print(x) => TransactionItem::Print(*x),
        }
    }
}

impl TransactionItem {
    /// Which variant the item is.
    pub open spec fn kind(self) -> TransactionKind {
        match self {
            TransactionItem::Epsilon(_) => TransactionKind::Epsilon,
            TransactionItem::Print(_) => TransactionKind::Print,
        }
    }

    /// The item written out as text: the variant's name, and in brackets the
    /// transaction it wraps.
    pub open spec fn spec_rendering(self) -> Seq<char> {
        match self {
            TransactionItem::Epsilon(_) => "Epsilon(Epsilon)"@,
            TransactionItem::Print(x) => "Print(PrintTransaction("@ + quoted(x.0@) + "))"@,
        }
    }

    /// Writes the item out as text, the way its `Debug` form reads.
    pub fn rendering(&self) -> (text: String)
        ensures
            text@ == self.spec_rendering(),
    {
        match self {
            TransactionItem::Epsilon(_) => String::from_str("Epsilon(Epsilon)"),
            TransactionItem::Print(x) => {
                let mut text = String::from_str("Print(PrintTransaction(");
                let inner = quote(x.0);
                text.append(inner.as_str());
                text.append("))");
                text
            },
        }
    }
}

impl From<Epsilon> for TransactionItem {
    fn from(x: Epsilon) -> (item: Self) {
        TransactionItem::Epsilon(x)
    }
}

impl vstd::std_specs::convert::FromSpecImpl<Epsilon> for TransactionItem {
    open spec fn obeys_from_spec() -> bool {
        true
    }

    open spec fn from_spec(x: Epsilon) -> Self {
        TransactionItem::Epsilon(x)
    }
}

impl TryFrom<TransactionItem> for Epsilon {
    type Error = RuntimeConstraintError;

    /// Takes the transaction out of its wrapping. Only the `Epsilon` variant
    /// holds one of this type: the other is refused, and the error says which
    /// variant was asked for and what was found.
    fn try_from(tc: TransactionItem) -> (unpacked: Result<Self, RuntimeConstraintError>)
        ensures
            match tc {
                TransactionItem::Epsilon(x) => unpacked == Ok::<Epsilon, RuntimeConstraintError>(x),
                _ => {
                    &&& unpacked is Err
                    &&& unpacked->Err_0.expected@ == "TransactionItem::Epsilon"@
                    &&& unpacked->Err_0.factual@ == tc.spec_rendering()
                },
            },
    {
        match tc {
            TransactionItem::Epsilon(x) => Ok(x),
            e => {
                let expected = String::from_str("TransactionItem::Epsilon");
                let factual = e.rendering();
                Err((expected, factual).into())
            },
        }
    }
}

/// A refusal carries text which is put together at runtime, and no
/// specification can write such a value down: what `try_from` returns is
/// stated by its own `ensures`, and not through `try_from_spec`.
impl vstd::std_specs::convert::TryFromSpecImpl<TransactionItem> for Epsilon {
    open spec fn obeys_try_from_spec() -> bool {
        false
    }

    open spec fn try_from_spec(tc: TransactionItem) -> Result<Self, RuntimeConstraintError> {
        arbitrary()
    }
}

impl From<PrintTransaction> for TransactionItem {
    fn from(x: PrintTransaction) -> (item: Self) {
        TransactionItem::Print(x)
    }
}

impl vstd::std_specs::convert::FromSpecImpl<PrintTransaction> for TransactionItem {
    open spec fn obeys_from_spec() -> bool {
        true
    }

    open spec fn from_spec(x: PrintTransaction) -> Self {
        TransactionItem::Print(x)
    }
}

impl TryFrom<TransactionItem> for PrintTransaction {
    type Error = RuntimeConstraintError;

    /// Takes the transaction out of its wrapping. Only the `Print` variant
    /// holds one of this type: the other is refused, and the error says which
    /// variant was asked for and what was found.
    fn try_from(tc: TransactionItem) -> (unpacked: Result<Self, RuntimeConstraintError>)
        ensures
            match tc {
                TransactionItem::Print(x) => unpacked == Ok::<
                    PrintTransaction,
                    RuntimeConstraintError,
                >(x),
                _ => {
                    &&& unpacked is Err
                    &&& unpacked->Err_0.expected@ == "TransactionItem::Print"@
                    &&& unpacked->Err_0.factual@ == tc.spec_rendering()
                },
            },
    {
        match tc {
            TransactionItem::Print(x) => Ok(x),
            e => {
                let expected = String::from_str("TransactionItem::Print");
                let factual = e.rendering();
                Err((expected, factual).into())
            },
        }
    }
}

/// A refusal carries text which is put together at runtime, and no
/// specification can write such a value down: what `try_from` returns is
/// stated by its own `ensures`, and not through `try_from_spec`.
impl vstd::std_specs::convert::TryFromSpecImpl<TransactionItem> for PrintTransaction {
    open spec fn obeys_try_from_spec() -> bool {
        false
    }

    open spec fn try_from_spec(tc: TransactionItem) -> Result<Self, RuntimeConstraintError> {
        arbitrary()
    }
}

} // verus!
