//! The infallible framing of the yield handle's `send`.
//!
//! Producer code emits items through a handle whose single operation promises
//! never to fail, so generator-style code needs no error branch per send. The
//! underlying channel send can still fail in exactly one way — the consumer
//! dropped the read-end — and by contract that is a usage error of the caller
//! of the adapter, not something producer code handles: the producer's task is
//! aborted with a diagnostic. This module makes that classification: the
//! plumbing that performs the send hands its outcome in, and aborts the
//! producer with the returned note if one comes back.

use vstd::prelude::*;

verus! {

/// Classify the outcome of the underlying channel send for a yield handle.
/// A success is passed through; a failure — possible only once the read-end
/// is gone — becomes the diagnostic note the producer's task is aborted with.
pub fn confirm_send<E>(outcome: Result<(), E>) -> (r: Result<(), &'static str>)
    ensures
        r is Ok <==> outcome is Ok,
        r matches Err(note)
            ==> note@ == "Infallible sends should only be used where they cannot fail"@,
{
    match outcome {
        Ok(()) => Ok(()),
        Err(_) => Err("Infallible sends should only be used where they cannot fail"),
    }
}

} // verus!
