use vstd::prelude::*;

verus! {

/// The failures a session-bridge operation can surface.
///
/// Every failure is local to the call that produced it: none terminates the
/// session. Only the reaper's observation of the shell's exit ends the host,
/// and that is a deliberate terminal event, not an error.
#[derive(Clone, Copy, Debug, PartialEq, Eq, Structural)]
pub enum PtyError {
    /// The host OS could not allocate a pseudo-terminal device; fatal to
    /// startup.
    Allocation,
    /// The shell process could not be created (bad directory, missing
    /// binary, permission denied).
    Spawn,
    /// Writing to the PTY master failed.
    Write,
    /// Applying new dimensions to the PTY master failed.
    Resize,
    /// Reading buffered output from the PTY master failed.
    Read,
    /// Buffered output was not valid UTF-8 and could not be drained.
    Decode,
}

impl PtyError {
    /// A short description of the failure, fit for surfacing to the caller.
    pub fn message(&self) -> (m: &'static str)
        ensures
            *self == PtyError::Allocation ==> m@ == "could not allocate a pseudo-terminal"@,
            *self == PtyError::Spawn ==> m@ == "could not spawn the shell process"@,
            *self == PtyError::Write ==> m@ == "could not write to the terminal"@,
            *self == PtyError::Resize ==> m@ == "could not resize the terminal"@,
            *self == PtyError::Read ==> m@ == "could not read from the terminal"@,
            *self == PtyError::Decode ==> m@ == "terminal output was not valid UTF-8"@,
    {
        match self {
            PtyError::Allocation => "could not allocate a pseudo-terminal",
            PtyError::Spawn => "could not spawn the shell process",
            PtyError::Write => "could not write to the terminal",
            PtyError::Resize => "could not resize the terminal",
            PtyError::Read => "could not read from the terminal",
            PtyError::Decode => "terminal output was not valid UTF-8",
        }
    }
}

} // verus!
