//! A pseudo-terminal (PTY) session bridge.
//!
//! The bridge spawns an interactive shell attached to a pseudo-terminal and
//! offers non-blocking write, resize, and drain-read operations to a caller
//! that must never block, such as a UI event loop.
//!
//! The crate holds the verified core: the shell command built for each
//! platform, the terminal dimensions, the session state that write, resize,
//! spawn, and drain operate on, the UTF-8 draining of buffered shell output,
//! and the reaper policy that turns the shell's exit into the host's exit.
//! The operating-system calls themselves (allocating the PTY device,
//! spawning the child, the raw reads and writes) are performed by the
//! hosting program around this crate, which feeds their results back in as
//! plain values.

pub mod codec;
pub mod error;
pub mod reaper;
pub mod session;
pub mod shell;
pub mod size;
