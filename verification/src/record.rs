//! The rendezvous record.
//!
//! The byte layout of a rendezvous file is exactly the cookie's
//! bytes followed by the address text.  A file shorter than a cookie
//! holds no record; readers treat it as empty.

use vstd::prelude::*;
use crate::cookie::Cookie;

verus! {

/// The bytes of a rendezvous record: the cookie's bytes, then the
/// trailing data (expected to be address text, but opaque here).
pub open spec fn record_bytes(cookie: Seq<u8>, trailer: Seq<u8>) -> Seq<u8> {
    cookie + trailer
}

/// How a file's bytes split into a cookie and trailing data: `None`
/// when the file is shorter than a cookie.
pub open spec fn split_record(bytes: Seq<u8>) -> Option<(Seq<u8>, Seq<u8>)> {
    if bytes.len() >= crate::COOKIE_LEN {
        Some(
            (
                bytes.subrange(0, crate::COOKIE_LEN as int),
                bytes.subrange(crate::COOKIE_LEN as int, bytes.len() as int),
            ),
        )
    } else {
        None
    }
}

/// Encodes a record: the cookie's bytes followed by `trailer`.
pub fn encode_record(cookie: &Cookie, trailer: &[u8]) -> (r: Vec<u8>)
    requires
        cookie.wf(),
    ensures
        r@ == record_bytes(cookie@, trailer@),
{
    let mut r: Vec<u8> = Vec::new();
    r.extend_from_slice(cookie.bytes().as_slice());
    r.extend_from_slice(trailer);
    assert(r@ =~= cookie@ + trailer@);
    r
}

/// Splits a file's bytes into a cookie and the trailing data.
///
/// Returns `None` exactly when the file is too short to contain a
/// cookie.
pub fn decode_record(bytes: Vec<u8>) -> (r: Option<(Cookie, Vec<u8>)>)
    ensures
        r matches Some(p) ==> (split_record(bytes@) matches Some(q) && p.0@ == q.0 && p.1@
            == q.1 && p.0.wf()),
        r is None <==> bytes@.len() < crate::COOKIE_LEN,
{
    Cookie::extract(bytes)
}

/// Law: writing a record and reading the file back yields the same
/// cookie and the same trailing data, for every cookie and trailer.
pub proof fn lemma_record_round_trip(cookie: Seq<u8>, trailer: Seq<u8>)
    requires
        cookie.len() == crate::COOKIE_LEN,
    ensures
        split_record(record_bytes(cookie, trailer)) == Some((cookie, trailer)),
{
    let b = record_bytes(cookie, trailer);
    assert(b.subrange(0, crate::COOKIE_LEN as int) =~= cookie);
    assert(b.subrange(crate::COOKIE_LEN as int, b.len() as int) =~= trailer);
}

/// Law: a file shorter than a cookie holds no record.
pub proof fn lemma_short_record_none(bytes: Seq<u8>)
    requires
        bytes.len() < crate::COOKIE_LEN,
    ensures
        split_record(bytes) is None,
{
}

} // verus!
