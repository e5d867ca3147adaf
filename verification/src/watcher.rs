//! The vocabulary that everything downstream of a watch speaks.
use vstd::prelude::*;

verus! {

/// What a watch tells its consumer.
#[derive(Clone, Debug)]
pub enum Event<K> {
    /// An object was created or updated.
    Apply(K),
    /// An object was removed.
    Delete(K),
    /// A fresh list begins: whatever was known before is to be replaced.
    Init,
    /// An object that the list in progress holds.
    InitApply(K),
    /// The list is complete.
    InitDone,
}

/// What can go wrong with a watch over a source whose own errors are of type `E`.
#[derive(Debug)]
pub enum Error<E> {
    /// The list ended without a cursor to watch from.
    NoResourceVersion,
    /// The source reported an error.
    Source(E),
}

} // verus!
