//! The completion signal of a resolution cycle: a `tokio::sync::Notify` shared
//! through an `Arc`. Nothing in this module is proved; it states what the rest
//! of the library relies on.

use std::sync::Arc;
use tokio::sync::Notify;
use vstd::prelude::*;

verus! {

/// `tokio::sync::Notify`, carried through as an opaque value.
#[verifier::external_type_specification]
#[verifier::external_body]
pub struct ExNotify(tokio::sync::Notify);

/// `Notify::new` builds a signal without a permit and without waiters. Nothing
/// is claimed of the value it returns.
pub assume_specification[ Notify::new ]() -> (signal: Notify);

/// `Notify::notify_waiters` wakes every waiter registered on the signal so far
/// and stores no permit. It returns nothing, so nothing is claimed of it.
pub assume_specification[ Notify::notify_waiters ](signal: &Notify);

/// `Arc::clone` on a signal: the new handle points to the same `Notify`.
#[verifier::external_body]
pub(crate) fn share(signal: &Arc<Notify>) -> (shared: Arc<Notify>)
    ensures
        shared == *signal,
{
    Arc::clone(signal)
}

} // verus!
