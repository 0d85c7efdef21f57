//! Core functionality for running an app on the 3DS: the main application
//! loop ends when the system's APT service says so.
use vstd::prelude::*;

verus! {

/// Whether the application is asked to exit, given whether the APT main loop
/// still runs: it exits exactly when the main loop has ended.
pub fn exit_requested(main_loop_running: bool) -> (exit: bool)
    ensures
        exit == !main_loop_running,
{
    !main_loop_running
}

} // verus!
