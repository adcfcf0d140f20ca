//! The runtime that executes spawned computations.

use vstd::prelude::*;

verus! {

/// An execution runtime that accepts computations of type `F`.
///
/// The runtime takes a computation that returns nothing and schedules it, fire
/// and forget: it hands back no handle, no cancellation token and no notice of
/// completion. It may execute the computation on any thread, and it never
/// advances one computation from two threads at once.
pub trait AsyncRuntime<F> {
    /// Takes `future` over for execution.
    fn run_future(&self, future: F);
}

} // verus!
