//! Authentication cookies.
//!
//! A cookie is an opaque 32-byte random token.  It is generated by
//! the first client of a service, latched by the server on its
//! initialization connection, and presented as the first bytes of
//! every later session.  Comparison is byte-wise and constant-time
//! over equal-length inputs: the comparison loop inspects every byte
//! and takes no data-dependent early exit.

use vstd::prelude::*;
use crate::errors::Error;
use rand::RngCore;

verus! {

/// Relies on rand_core::OsRng::try_fill_bytes: on success the whole
/// buffer was filled from the operating system's entropy source; on
/// failure it returns an error instead of panicking (mapped to
/// `None` here).
#[verifier::external_body]
fn os_random_bytes(n: usize) -> (r: Option<Vec<u8>>)
    ensures
        r matches Some(b) ==> b@.len() == n,
{
    let mut buf = vec![0u8; n];
    match rand::rngs::OsRng.try_fill_bytes(&mut buf) {
        Ok(()) => Some(buf),
        Err(_) => None,
    }
}

/// Relies on std::io::Read::read_exact: on success exactly `n` bytes
/// were read from the reader and fill the returned buffer.
#[verifier::external_body]
fn read_exact_from<R: std::io::Read>(from: &mut R, n: usize) -> (r: Result<Vec<u8>, std::io::Error>)
    ensures
        r matches Ok(b) ==> b@.len() == n,
{
    let mut buf = vec![0u8; n];
    match from.read_exact(&mut buf) {
        Ok(()) => Ok(buf),
        Err(e) => Err(e),
    }
}

/// Relies on std::io::Write::write_all: on success the whole buffer
/// was written to the writer.
#[verifier::external_body]
fn write_all_to<W: std::io::Write>(to: &mut W, buf: &[u8]) -> (r: Result<(), std::io::Error>) {
    to.write_all(buf)
}

/// Cookies are used to authenticate clients.
pub struct Cookie {
    bytes: Vec<u8>,
}

impl View for Cookie {
    type V = Seq<u8>;

    closed spec fn view(&self) -> Seq<u8> {
        self.bytes@
    }
}

/// Compares two equal-length byte slices without a data-dependent
/// early exit: every byte is inspected and folded into an
/// accumulator, and only the accumulator decides the result.
fn ct_eq(a: &[u8], b: &[u8]) -> (r: bool)
    requires
        a@.len() == b@.len(),
    ensures
        r == (a@ == b@),
{
    let mut diff: u8 = 0;
    let mut i: usize = 0;
    while i < a.len()
        invariant
            a@.len() == b@.len(),
            i <= a@.len(),
            (diff == 0) <==> (forall|k: int| 0 <= k < i ==> a@[k] == b@[k]),
        decreases a@.len() - i,
    {
        let x = a[i] ^ b[i];
        proof {
            let d = diff;
            assert(((d | x) == 0) == (d == 0 && x == 0)) by (bit_vector);
            let ai = a@[i as int];
            let bi = b@[i as int];
            assert(((ai ^ bi) == 0) == (ai == bi)) by (bit_vector);
        }
        diff = diff | x;
        i = i + 1;
    }
    proof {
        if diff == 0 {
            assert(a@ =~= b@);
        }
    }
    diff == 0
}

impl Cookie {
    /// A cookie is well formed when it holds exactly
    /// [`crate::COOKIE_LEN`] bytes.
    pub open spec fn wf(&self) -> bool {
        self@.len() == crate::COOKIE_LEN
    }

    /// The cookie's bytes.
    pub fn bytes(&self) -> (r: &Vec<u8>)
        ensures
            r@ == self@,
    {
        &self.bytes
    }

    /// Make a new cookie, sampled from the operating system's
    /// cryptographic random number generator.
    ///
    /// Fails only when the entropy source fails.
    pub fn new() -> (r: Result<Cookie, Error>)
        ensures
            r matches Ok(c) ==> c.wf(),
    {
        match os_random_bytes(crate::COOKIE_LEN) {
            Some(buf) => Ok(Cookie { bytes: buf }),
            None => Err(Error::Io),
        }
    }

    /// Read a cookie from `from`: exactly [`crate::COOKIE_LEN`]
    /// bytes, or an error when the stream ends or fails before that.
    pub fn receive<R: std::io::Read>(from: &mut R) -> (r: Result<Cookie, Error>)
        ensures
            r matches Ok(c) ==> c.wf(),
            r matches Err(e) ==> (e matches Error::ConnectionClosed(b) && b@.len() == 0),
    {
        match read_exact_from(from, crate::COOKIE_LEN) {
            Ok(buf) => Ok(Cookie { bytes: buf }),
            Err(_) => Err(Error::ConnectionClosed(Vec::new())),
        }
    }

    /// Write this cookie's [`crate::COOKIE_LEN`] bytes to `to`.
    pub fn send<W: std::io::Write>(&self, to: &mut W) -> (r: Result<(), Error>)
        ensures
            r matches Err(e) ==> e matches Error::Io,
    {
        match write_all_to(to, self.bytes.as_slice()) {
            Ok(()) => Ok(()),
            Err(_) => Err(Error::Io),
        }
    }

    /// Make a new cookie from a slice.
    ///
    /// Returns `None` unless the slice holds exactly
    /// [`crate::COOKIE_LEN`] bytes.
    pub fn from(buf: &[u8]) -> (r: Option<Cookie>)
        ensures
            buf@.len() == crate::COOKIE_LEN ==>
                (r matches Some(c) && c@ == buf@ && c.wf()),
            buf@.len() != crate::COOKIE_LEN ==> r is None,
    {
        if buf.len() == crate::COOKIE_LEN {
            let mut c: Vec<u8> = Vec::new();
            c.extend_from_slice(buf);
            Some(Cookie { bytes: c })
        } else {
            None
        }
    }

    /// Given a vector starting with a cookie, extract it and return
    /// the rest.
    ///
    /// Returns `None` when the vector is too short to contain a
    /// cookie; a partial record is treated as no record.
    pub fn extract(mut buf: Vec<u8>) -> (r: Option<(Cookie, Vec<u8>)>)
        ensures
            buf@.len() >= crate::COOKIE_LEN ==>
                (r matches Some(p)
                    && p.0@ == buf@.subrange(0, crate::COOKIE_LEN as int)
                    && p.0.wf()
                    && p.1@ == buf@.subrange(crate::COOKIE_LEN as int, buf@.len() as int)),
            buf@.len() < crate::COOKIE_LEN ==> r is None,
    {
        if buf.len() >= crate::COOKIE_LEN {
            let rest = buf.split_off(crate::COOKIE_LEN);
            Some((Cookie { bytes: buf }, rest))
        } else {
            None
        }
    }
}

impl PartialEq for Cookie {
    /// Byte-wise equality.  The length comparison may exit early
    /// (lengths are not secret); the byte comparison over
    /// equal-length inputs is constant-time.
    fn eq(&self, other: &Cookie) -> (r: bool) {
        self.bytes.len() == other.bytes.len()
            && ct_eq(self.bytes.as_slice(), other.bytes.as_slice())
    }
}

impl vstd::std_specs::cmp::PartialEqSpecImpl for Cookie {
    open spec fn obeys_eq_spec() -> bool {
        true
    }

    open spec fn eq_spec(&self, other: &Cookie) -> bool {
        self@ == other@
    }
}

} // verus!
