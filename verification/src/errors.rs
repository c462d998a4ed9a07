//! Errors returned from the rendezvous and connection routines.

use vstd::prelude::*;

verus! {

/// Errors returned from the network routines.
#[derive(Debug)]
pub enum Error {
    /// A file or socket operation failed.
    Io,
    /// The rendezvous lock could not be taken without blocking.
    ///
    /// Reserved for non-blocking callers; the blocking open never
    /// reports it.
    LockUnavailable,
    /// The rendezvous file content does not parse.
    Malformed,
    /// The trailing bytes of a rendezvous record do not parse as a
    /// loopback socket address.
    AddressInvalid,
    /// Connection closed unexpectedly.  Carries the bytes that were
    /// received before the peer closed.
    ConnectionClosed(Vec<u8>),
    /// No launcher could start the service.
    LaunchFailed,
    /// The server's command line does not follow the expected form.
    UsageError,
}

impl Error {
    /// A short description of the error, for callers that report it.
    pub fn message(&self) -> (r: &'static str)
        ensures
            r@.len() > 0,
    {
        let r = match self {
            Error::Io => "input/output error",
            Error::LockUnavailable => "rendezvous lock unavailable",
            Error::Malformed => "malformed rendezvous record",
            Error::AddressInvalid => "invalid socket address text",
            Error::ConnectionClosed(_) => "connection closed unexpectedly",
            Error::LaunchFailed => "failed to launch the service",
            Error::UsageError => "usage error",
        };
        proof {
            reveal_strlit("input/output error");
            reveal_strlit("rendezvous lock unavailable");
            reveal_strlit("malformed rendezvous record");
            reveal_strlit("invalid socket address text");
            reveal_strlit("connection closed unexpectedly");
            reveal_strlit("failed to launch the service");
            reveal_strlit("usage error");
        }
        r
    }
}

} // verus!
