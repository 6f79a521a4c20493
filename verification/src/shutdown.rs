use vstd::prelude::*;

use std::sync::mpsc::Receiver;

verus! {

/// std's channel receiver, declared so the cancellation channel can stand in
/// signatures; values of it are opaque here.
#[verifier::external_type_specification]
#[verifier::external_body]
#[verifier::reject_recursive_types(T)]
pub struct ExReceiver<T>(Receiver<T>);

/// Relies on std::sync::mpsc::Receiver::try_recv: returns without blocking,
/// and returns `Ok` exactly when a value was waiting on the channel. Whether
/// the shutdown signal has been sent depends on the world outside, so
/// nothing is promised of the outcome.
#[verifier::external_body]
pub(crate) fn shutdown_signaled(rx: &mut Receiver<()>) -> bool {
    rx.try_recv().is_ok()
}

} // verus!
