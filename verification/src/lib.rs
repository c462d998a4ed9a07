//! Local-only IPC discovery and bootstrap layer.
//!
//! Clients locate, start if necessary, and authenticate a co-located
//! service whose identity is a pathname on the local filesystem.  A
//! small rendezvous file stores a 32-byte random cookie followed by
//! the text of a loopback socket address; access to the file is
//! serialized by an exclusive lock, and connections are authenticated
//! by presenting the cookie as the first bytes of each stream.

use vstd::prelude::*;

pub mod addr;
pub mod args;
pub mod connect;
pub mod context;
pub mod cookie;
pub mod errors;
pub mod outside;
pub mod record;
pub mod server;

verus! {

/// Length in bytes of an authentication cookie.
pub const COOKIE_LEN: usize = 32;

} // verus!
