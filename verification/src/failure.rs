//! The failures that end a run, and how each is reported to the operator.
//!
//! Everything else that can go wrong is absorbed where it is seen: a failed
//! send evicts the session, a bad local read is dropped, and a lost
//! connection is dialled again.

use vstd::prelude::*;

verus! {

/// A failure that is fatal to the command that met it.
#[derive(Clone, Copy, Debug, PartialEq, Eq, Structural)]
pub enum Failure {
    /// The host could not bind its network address.
    BindAddress,
    /// The host could not bind the local signal socket.
    BindSocket,
    /// The one-shot command could not open the local signal socket.
    OpenSocket,
    /// The one-shot command could not write its byte.
    WriteSocket,
    /// The one-shot command could not flush its byte.
    FlushSocket,
    /// The one-shot command could not shut the socket down.
    ReleaseSocket,
    /// The client could not start the playback program.
    Playback,
}

impl Failure {
    /// The text that introduces this failure in the message shown to the
    /// operator; the cause follows it after a colon.
    pub open spec fn spec_context(self) -> Seq<char> {
        match self {
            Failure::BindAddress => "Failed to bind to address"@,
            Failure::BindSocket => "Failed to bind unix socket"@,
            Failure::OpenSocket => "Failed to open unix socket"@,
            Failure::WriteSocket => "Failed to write to unix socket"@,
            Failure::FlushSocket => "Failed to flush unix socket"@,
            Failure::ReleaseSocket => "Failed to release unix socket"@,
            Failure::Playback => "Failed to execute pw-cat"@,
        }
    }

    /// The text that introduces this failure in the message shown to the
    /// operator.
    pub fn context(self) -> (text: &'static str)
        ensures
            text@ == self.spec_context(),
    {
        match self {
            Failure::BindAddress => "Failed to bind to address",
            Failure::BindSocket => "Failed to bind unix socket",
            Failure::OpenSocket => "Failed to open unix socket",
            Failure::WriteSocket => "Failed to write to unix socket",
            Failure::FlushSocket => "Failed to flush unix socket",
            Failure::ReleaseSocket => "Failed to release unix socket",
            Failure::Playback => "Failed to execute pw-cat",
        }
    }
}

} // verus!
