//! The exit check of the single-plugin setup: the app exits when the APT main
//! loop ends, or when Select is pressed.
use vstd::prelude::*;

use crate::input::{KeyPad, KEY_SELECT};

verus! {

/// What the exit check does after asking the APT service whether the main
/// loop still runs.
#[derive(Clone, Copy, Debug, PartialEq, Eq, Structural)]
pub enum AptOutcome {
    /// The main loop has ended: send the exit event, and read no input.
    Exit,
    /// The main loop runs: scan the input and look at the keys that went down.
    ScanInput,
}

/// The exit that the check decides on, given the state of the main loop and,
/// where the input was scanned, the keys that went down.
pub open spec fn exit_decision(main_loop_running: bool, keys_down: KeyPad) -> bool {
    !main_loop_running || keys_down.has(KeyPad { bits: KEY_SELECT })
}

/// The outcome of the first step.
pub open spec fn apt_outcome(main_loop_running: bool) -> AptOutcome {
    if main_loop_running {
        AptOutcome::ScanInput
    } else {
        AptOutcome::Exit
    }
}

/// The first step of the exit check.
pub fn check_apt(main_loop_running: bool) -> (outcome: AptOutcome)
    ensures
        outcome == apt_outcome(main_loop_running),
{
    if !main_loop_running {
        AptOutcome::Exit
    } else {
        AptOutcome::ScanInput
    }
}

/// The second step of the exit check, once the input was scanned: exit when
/// Select went down.
pub fn check_keys(keys_down: KeyPad) -> (exit: bool)
    ensures
        exit == keys_down.has(KeyPad { bits: KEY_SELECT }),
{
    keys_down.contains(KeyPad { bits: KEY_SELECT })
}

/// Run in turn, the two steps exit exactly when the main loop has ended or
/// Select went down, and they scan the input only while the main loop runs.
pub proof fn lemma_exit_check(main_loop_running: bool, keys_down: KeyPad)
    ensures
        (apt_outcome(main_loop_running) == AptOutcome::ScanInput) == main_loop_running,
        (apt_outcome(main_loop_running) == AptOutcome::Exit || keys_down.has(
            KeyPad { bits: KEY_SELECT },
        )) == exit_decision(main_loop_running, keys_down),
{
}

} // verus!
