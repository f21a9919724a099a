use vstd::prelude::*;

verus! {

/// The one action the reaper can decide on once the shell has terminated.
#[derive(Clone, Copy, Debug, PartialEq, Eq, Structural)]
pub enum ReaperAction {
    /// Terminate the hosting process with the given exit code.
    ExitHost(i32),
}

/// The host exit code the reaper derives from the shell's exit code: the
/// same value, carried into the host's signed exit type.
pub open spec fn host_exit_code_spec(child_code: u32) -> i32 {
    child_code as i32
}

/// Decides the reaper's reaction to the shell's termination.
///
/// The session's lifetime is coextensive with the host's: once the
/// interactive shell exits, the host is finished and exits with the
/// shell's exit code. The surrounding program runs the blocking wait on
/// the child and performs the exit; this policy is the whole decision.
pub fn on_child_exit(child_code: u32) -> (action: ReaperAction)
    ensures
        action == ReaperAction::ExitHost(host_exit_code_spec(child_code)),
{
    ReaperAction::ExitHost(#[verifier::truncate] (child_code as i32))
}

} // verus!
