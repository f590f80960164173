//! Small utilities of the core, mostly used by its hidden parts.

use vstd::prelude::*;
use vstd::std_specs::convert::{IntoSpec, TryIntoSpec};
use crate::marker::{Transaction, TransactionContainer};

verus! {

/// std's conversion of a value into its own type, `From<T> for T`, which
/// its documentation describes as returning the argument unchanged.
/// Believed, not proved.
pub assume_specification<U>[ <U as std::convert::From<U>>::from ](value: U) -> (same: U)
    ensures
        same == value,
;

/// Transforms a transaction into the wrapping variant. This cannot fail.
pub fn pack_transaction<T, TC>(x: T) -> (packed: TC) where
    T: Transaction + Into<TC> + 'static,
    TC: TransactionContainer + 'static,

    ensures
        call_ensures(<T as Into<TC>>::into, (x,), packed),
        <T as IntoSpec<TC>>::obeys_into_spec() ==> packed == <T as IntoSpec<TC>>::into_spec(x),
{
    x.into()
}

/// Unpacks a wrapped transaction into an owned value of the type asked for.
/// Whether the wrapping holds that type is for the conversion to say.
pub fn unpack_transaction<T, TC>(tc: TC) -> (unpacked: Result<T, TC::Error>) where
    T: Transaction + 'static,
    TC: TransactionContainer + TryInto<T> + 'static,

    ensures
        call_ensures(<TC as TryInto<T>>::try_into, (tc,), unpacked),
        <TC as TryIntoSpec<T>>::obeys_try_into_spec() ==> unpacked == <TC as TryIntoSpec<
            T,
        >>::try_into_spec(tc),
{
    tc.try_into()
}

} // verus!
