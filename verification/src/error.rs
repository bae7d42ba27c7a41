//! The failures that the library reports.

use vstd::prelude::*;

verus! {

/// The kinds of failure.
#[derive(Clone, Copy, Debug, PartialEq, Eq, Structural)]
pub enum FailureKind {
    /// A file could not be read or written.
    Io,
    /// A transfer failed, or the server answered with an error.
    Network,
    /// A file that has to be there is missing.
    NotFound,
    /// The worker could not be started.
    LaunchFailed,
    /// The request to end the worker could not be made.
    TerminationFailed,
    /// The driver service could not be removed.
    PrivilegedResource,
}

/// A failure: its kind, and a one-line message for the user.
#[derive(Debug)]
pub struct Failure {
    /// The kind of failure.
    pub kind: FailureKind,
    /// The message.
    pub message: String,
}

impl View for Failure {
    type V = (FailureKind, Seq<char>);

    open spec fn view(&self) -> (FailureKind, Seq<char>) {
        (self.kind, self.message@)
    }
}

impl Failure {
    /// A failure of the kind `kind` with the message `message`.
    pub fn new(kind: FailureKind, message: String) -> (failure: Failure)
        ensures
            failure@ == (kind, message@),
    {
        Failure { kind, message }
    }
}

} // verus!
