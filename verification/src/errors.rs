use vstd::prelude::*;

verus! {

/// Why an attempt to open a container failed, as the container collaborator
/// reported it.
#[derive(Debug, Clone, PartialEq, Eq)]
pub enum OpenFailure {
    /// The supplied credential did not unlock the container.
    WrongPassword,
    /// The container's on-disk header could not be understood.
    CorruptFormat,
    /// The storage backend failed; carries the collaborator's description.
    Backend(String),
}

/// The failures this layer reports. Every one is terminal for the current
/// command invocation: no layer here retries.
#[derive(Debug, Clone, PartialEq, Eq)]
pub enum Error {
    /// The operator's home directory could not be determined, which is fatal
    /// for every subsequent operation.
    Environment,
    /// A directory could not be created or read; carries the description.
    Io(String),
    /// The credential prompt failed (no terminal, or the read failed);
    /// carries the description.
    Prompt(String),
    /// The container could not be opened; preserves the underlying cause.
    Open(OpenFailure),
    /// The container name is not fit to stand as a single path segment.
    InvalidName,
}

/// The process outcome a command result maps to: zero exactly on success.
pub open spec fn spec_exit_status(ok: bool) -> u8 {
    if ok {
        0
    } else {
        1
    }
}

/// The status the process exits with: zero exactly when the dispatched
/// command succeeded, non-zero on any failure.
pub fn exit_status(outcome: &Result<(), Error>) -> (code: u8)
    ensures
        code == spec_exit_status(outcome is Ok),
{
    match outcome {
        Ok(_) => 0,
        Err(_) => 1,
    }
}

} // verus!
