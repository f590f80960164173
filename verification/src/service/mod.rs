//! Types which attribute functionality to state machines.

use vstd::prelude::*;
use vstd::std_specs::convert::IntoSpec;
use crate::marker::{Service, TransactionContainer};
use crate::service::error::StackPopError;

pub mod error;

verus! {

/// A vector wrapped to provide a simple stack interface.
#[derive(Debug)]
pub struct StackStorage<A> where A: TransactionContainer {
    /// Backing storage of the stack. The top of the stack is the last element.
    pub tape: Vec<A>,
}

impl<A> Service for StackStorage<A> where A: TransactionContainer {
}

impl<A> View for StackStorage<A> where A: TransactionContainer {
    type V = Seq<A>;

    /// The stored items from the bottom of the stack to its top.
    open spec fn view(&self) -> Seq<A> {
        self.tape@
    }
}

impl<A> Clone for StackStorage<A> where A: TransactionContainer + Clone {
    /// Copies the stack item by item, each with its own `clone`.
    fn clone(&self) -> (copy: Self)
        ensures
            copy@.len() == self@.len(),
            forall|i: int| 0 <= i < self@.len() ==> cloned(self@[i], #[trigger] copy@[i]),
    {
        StackStorage { tape: self.tape.clone() }
    }
}

impl<A> StackStorage<A> where A: TransactionContainer {
    /// Adds the provided value onto the top of the stack. This never fails.
    pub fn push<T: Into<A>>(&mut self, t: T)
        ensures
            final(self)@.len() == old(self)@.len() + 1,
            final(self)@.drop_last() == old(self)@,
            call_ensures(<T as Into<A>>::into, (t,), final(self)@.last()),
            <T as IntoSpec<A>>::obeys_into_spec() ==> final(self)@ == old(self)@.push(
                <T as IntoSpec<A>>::into_spec(t),
            ),
    {
        let item: A = t.into();
        self.tape.push(item);
        assert(self@.drop_last() =~= old(self)@);
    }

    /// Removes the element from the top of the stack.
    ///
    /// The popped value is the one which was pushed last. Popping an empty
    /// stack fails and leaves it empty.
    pub fn pop(&mut self) -> (popped: Result<A, StackPopError>)
        ensures
            match popped {
                Ok(item) => {
                    &&& old(self)@.len() > 0
                    &&& item == old(self)@.last()
                    &&& final(self)@ == old(self)@.drop_last()
                },
                Err(_) => old(self)@.len() == 0 && final(self)@ == old(self)@,
            },
    {
        match self.tape.pop() {
            Some(item) => Ok(item),
            None => Err(StackPopError),
        }
    }
}

} // verus!
