//! The service side.
//!
//! A server latches the cookie delivered on its single
//! initialization connection, then serves an accept loop.  The
//! loop's per-connection decision stands here: a session is admitted
//! exactly when its first bytes equal the latched cookie; everything
//! else — mismatches and read errors alike — is dropped silently,
//! and the loop continues.

use vstd::prelude::*;
use crate::args;
use crate::context::{Context, Descriptor};
use crate::cookie::Cookie;
use crate::errors::Error;

verus! {

/// A server: the descriptor it serves, and the cookie it expects
/// once the initialization connection delivered one.
pub struct Server {
    descriptor: Descriptor,
    expected: Option<Cookie>,
}

impl Server {
    /// The descriptor this server serves.
    pub closed spec fn descriptor_spec(&self) -> Descriptor {
        self.descriptor
    }

    /// The cookie latched from the initialization connection, if
    /// any.
    pub closed spec fn expected_spec(&self) -> Option<Cookie> {
        self.expected
    }

    /// Creates a new server for the descriptor.  No cookie is
    /// latched yet.
    pub fn new(descriptor: Descriptor) -> (r: Server)
        ensures
            r.descriptor_spec() == descriptor,
            r.expected_spec() is None,
    {
        Server { descriptor, expected: None }
    }

    /// Creates a context from a server command line, program name
    /// included.
    ///
    /// Accepts exactly `<exe> --home <H> --lib <L> --ephemeral
    /// <true|false>`; everything else is a usage error.
    pub fn context(argv: &Vec<Vec<u8>>) -> (r: Result<Context, Error>)
        ensures
            r is Ok <==> args::valid_server_args(argv@),
            r matches Ok(c) ==> {
                &&& c.home@ == argv@[2]@
                &&& c.lib@ == argv@[4]@
                &&& c.ephemeral == (argv@[6]@ == args::lit_true())
            },
            r matches Err(e) ==> e matches Error::UsageError,
    {
        args::parse_server_args(argv)
    }

    /// Latches the cookie read from the initialization connection:
    /// it becomes the expected cookie for this server's lifetime.
    pub fn latch(&mut self, cookie: Cookie)
        requires
            old(self).expected_spec() is None,
            cookie.wf(),
        ensures
            final(self).expected_spec() == Some(cookie),
            final(self).descriptor_spec() == old(self).descriptor_spec(),
    {
        self.expected = Some(cookie);
    }

    /// The accept loop's decision for one connection, given the
    /// outcome of reading the connection's first bytes.
    ///
    /// Accepts the session exactly when a cookie was read and equals
    /// the latched one; a mismatch or a read error drops the
    /// connection, with no distinction visible to the peer.  The
    /// comparison is constant-time over the cookie's bytes.
    pub fn accepts(&self, received: &Result<Cookie, Error>) -> (r: bool)
        ensures
            r == (self.expected_spec() matches Some(e) && received matches Ok(c) && e@ == c@),
    {
        match (&self.expected, received) {
            (Some(e), Ok(c)) => e == c,
            _ => false,
        }
    }
}

} // verus!
