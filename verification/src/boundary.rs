//! The trust boundary around a foreign self-pointer.
//!
//! Every call that enters through a published function table carries an
//! untyped self-pointer chosen by the foreign side. Dispatch must first
//! resolve it to a live, correctly-typed local instance; a pointer that does
//! not resolve (stale, foreign, or presented during the wrong lifecycle
//! phase) makes the call fail closed. `Recovered` is the outcome of that
//! resolution: the dispatch entry points take it as their first argument and
//! return the operation's documented failure value on `Stale`.

use vstd::prelude::*;

verus! {

/// What a foreign self-pointer resolved to: the live local instance it
/// designates, or nothing when the pointer is stale or mistyped.
pub enum Recovered<T> {
    /// The pointer resolved to a live, correctly-typed local instance.
    Live(T),
    /// The pointer did not resolve; dispatch must fail closed.
    Stale,
}

} // verus!
