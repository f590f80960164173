//! Types providing context of unexpected behaviour.

use std::fmt::Debug;
use vstd::prelude::*;
use crate::function::StateContainer;

verus! {

/// The public cases of state machine failures.
#[derive(Debug, Copy, Clone, Eq, PartialEq, Structural)]
pub enum ErrorKind {
    /// Some constraint failed to hold at runtime.
    ConstraintError,
    /// The developer has introduced a logic error in the order of the calls.
    LogicError,
}

impl ErrorKind {
    /// The text shown to the user for each kind.
    pub open spec fn spec_message(self) -> Seq<char> {
        match self {
            ErrorKind::ConstraintError => "An operation failed to meet required constraints"@,
            ErrorKind::LogicError => "A logical error ocurred"@,
        }
    }

    /// The text shown to the user for this kind.
    pub fn message(&self) -> (text: String)
        ensures
            text@ == self.spec_message(),
    {
        match self {
            ErrorKind::ConstraintError => String::from_str(
                "An operation failed to meet required constraints",
            ),
            ErrorKind::LogicError => String::from_str("A logical error ocurred"),
        }
    }
}

/// User facing error: the kind of the failure together with a snapshot of
/// the state machine, taken at the moment the failure occurred.
#[derive(Debug)]
pub struct MachineError<M> {
    machine: M,
    kind: ErrorKind,
}

impl<M> MachineError<M> {
    /// The kind under which the failure was filed.
    pub closed spec fn spec_kind(&self) -> ErrorKind {
        self.kind
    }

    /// The machine as it was when the failure occurred.
    pub closed spec fn spec_machine(&self) -> &M {
        &self.machine
    }

    /// The kind under which the failure was filed.
    #[verifier::when_used_as_spec(spec_kind)]
    pub fn kind(&self) -> (kind: ErrorKind)
        ensures
            kind == self.spec_kind(),
    {
        self.kind
    }

    /// The machine as it was when the failure occurred.
    #[verifier::when_used_as_spec(spec_machine)]
    pub fn machine(&self) -> (machine: &M)
        ensures
            machine == self.spec_machine(),
    {
        &self.machine
    }

    /// The text shown to the user: that of the failure's kind.
    pub fn message(&self) -> (text: String)
        ensures
            text@ == self.kind().spec_message(),
    {
        self.kind.message()
    }
}

/// Turns the failure of a result into a [`MachineError`] with a snapshot of
/// the state machine attached.
pub trait SnapshottedErrorExt<T> {
    /// Files a failure under `context` and attaches a copy of `machine` to it.
    /// A success passes through untouched, and no copy is made for it.
    fn context<M>(self, context: ErrorKind, machine: &M) -> Result<T, MachineError<M>> where
        M: StateContainer + Clone + Debug + Sync + Send + 'static,
    ;
}

impl<T, E> SnapshottedErrorExt<T> for Result<T, E> {
    fn context<M>(self, context: ErrorKind, machine: &M) -> (annotated: Result<
        T,
        MachineError<M>,
    >) where M: StateContainer + Clone + Debug + Sync + Send + 'static
        ensures
            match self {
                Ok(value) => annotated == Ok::<T, MachineError<M>>(value),
                Err(_) => {
                    &&& annotated is Err
                    &&& annotated->Err_0.kind() == context
                    &&& cloned(*machine, *annotated->Err_0.machine())
                },
            },
    {
        match self {
            Ok(value) => Ok(value),
            Err(_) => Err(MachineError { machine: machine.clone(), kind: context }),
        }
    }
}

/// Tells that a value failed to meet a constraint.
#[derive(Debug)]
pub struct RuntimeConstraintError {
    /// Value defining the constraint.
    pub expected: String,
    /// Value which fails to meet the constraint.
    pub factual: String,
}

impl RuntimeConstraintError {
    /// The text shown to the user for this error.
    pub fn message(&self) -> (text: String)
        ensures
            text@ == "Constraint violation detected! Expected `"@ + self.expected@
                + "`, provided `"@ + self.factual@ + "`"@,
    {
        let mut text = String::from_str("Constraint violation detected! Expected `");
        text.append(self.expected.as_str());
        text.append("`, provided `");
        text.append(self.factual.as_str());
        text.append("`");
        text
    }
}

impl From<(String, String)> for RuntimeConstraintError {
    /// Builds the error from the expected value and the one found instead.
    fn from(x: (String, String)) -> (error: Self) {
        let (expected, factual) = x;
        RuntimeConstraintError { expected, factual }
    }
}

impl vstd::std_specs::convert::FromSpecImpl<(String, String)> for RuntimeConstraintError {
    open spec fn obeys_from_spec() -> bool {
        true
    }

    open spec fn from_spec(x: (String, String)) -> Self {
        RuntimeConstraintError { expected: x.0, factual: x.1 }
    }
}

} // verus!
