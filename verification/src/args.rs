//! The service child's command line.
//!
//! An external server is invoked as `<exe> --home <HOMEDIR> --lib
//! <LIBDIR> --ephemeral <true|false>`.  This module builds that
//! argument list for the launcher and parses it on the server side;
//! any deviation is a usage error.  Arguments are held as plain
//! bytes.

use vstd::prelude::*;
use crate::context::{Context, Policy};
use crate::errors::Error;

verus! {

/// The bytes of `--home`.
pub open spec fn opt_home() -> Seq<u8> {
    seq![45u8, 45u8, 104u8, 111u8, 109u8, 101u8]
}

/// The bytes of `--lib`.
pub open spec fn opt_lib() -> Seq<u8> {
    seq![45u8, 45u8, 108u8, 105u8, 98u8]
}

/// The bytes of `--ephemeral`.
pub open spec fn opt_ephemeral() -> Seq<u8> {
    seq![45u8, 45u8, 101u8, 112u8, 104u8, 101u8, 109u8, 101u8, 114u8, 97u8, 108u8]
}

/// The bytes of `true`.
pub open spec fn lit_true() -> Seq<u8> {
    seq![116u8, 114u8, 117u8, 101u8]
}

/// The bytes of `false`.
pub open spec fn lit_false() -> Seq<u8> {
    seq![102u8, 97u8, 108u8, 115u8, 101u8]
}

/// Whether `args` is a well-formed server command line, program name
/// included.
pub open spec fn valid_server_args(args: Seq<Vec<u8>>) -> bool {
    &&& args.len() == 7
    &&& args[1]@ == opt_home()
    &&& args[3]@ == opt_lib()
    &&& args[5]@ == opt_ephemeral()
    &&& (args[6]@ == lit_true() || args[6]@ == lit_false())
}

/// Whether two byte strings are equal.
pub fn bytes_eq(a: &[u8], b: &[u8]) -> (r: bool)
    ensures
        r == (a@ == b@),
{
    if a.len() != b.len() {
        return false;
    }
    let mut i: usize = 0;
    while i < a.len()
        invariant
            a@.len() == b@.len(),
            i <= a@.len(),
            forall|k: int| 0 <= k < i ==> a@[k] == b@[k],
        decreases a@.len() - i,
    {
        if a[i] != b[i] {
            return false;
        }
        i = i + 1;
    }
    proof {
        assert(a@ =~= b@);
    }
    true
}

/// The bytes of `--home`.
fn opt_home_bytes() -> (r: Vec<u8>)
    ensures
        r@ == opt_home(),
{
    let mut r: Vec<u8> = Vec::new();
    r.push(45);
    r.push(45);
    r.push(104);
    r.push(111);
    r.push(109);
    r.push(101);
    assert(r@ =~= opt_home());
    r
}

/// The bytes of `--lib`.
fn opt_lib_bytes() -> (r: Vec<u8>)
    ensures
        r@ == opt_lib(),
{
    let mut r: Vec<u8> = Vec::new();
    r.push(45);
    r.push(45);
    r.push(108);
    r.push(105);
    r.push(98);
    assert(r@ =~= opt_lib());
    r
}

/// The bytes of `--ephemeral`.
fn opt_ephemeral_bytes() -> (r: Vec<u8>)
    ensures
        r@ == opt_ephemeral(),
{
    let mut r: Vec<u8> = Vec::new();
    r.push(45);
    r.push(45);
    r.push(101);
    r.push(112);
    r.push(104);
    r.push(101);
    r.push(109);
    r.push(101);
    r.push(114);
    r.push(97);
    r.push(108);
    assert(r@ =~= opt_ephemeral());
    r
}

/// The bytes of `true` or `false`.
fn bool_bytes(v: bool) -> (r: Vec<u8>)
    ensures
        v ==> r@ == lit_true(),
        !v ==> r@ == lit_false(),
{
    let mut r: Vec<u8> = Vec::new();
    if v {
        r.push(116);
        r.push(114);
        r.push(117);
        r.push(101);
        assert(r@ =~= lit_true());
    } else {
        r.push(102);
        r.push(97);
        r.push(108);
        r.push(115);
        r.push(101);
        assert(r@ =~= lit_false());
    }
    r
}

/// Builds the argument list that a launcher hands the service
/// executable: `--home <H> --lib <L> --ephemeral <true|false>`,
/// without the program name.
pub fn build_server_args(ctx: &Context) -> (r: Vec<Vec<u8>>)
    ensures
        r@.len() == 6,
        r@[0]@ == opt_home(),
        r@[1]@ == ctx.home@,
        r@[2]@ == opt_lib(),
        r@[3]@ == ctx.lib@,
        r@[4]@ == opt_ephemeral(),
        ctx.ephemeral ==> r@[5]@ == lit_true(),
        !ctx.ephemeral ==> r@[5]@ == lit_false(),
{
    let mut r: Vec<Vec<u8>> = Vec::new();
    r.push(opt_home_bytes());
    let home = ctx.home.clone();
    assert(home@ =~= ctx.home@);
    r.push(home);
    r.push(opt_lib_bytes());
    let lib = ctx.lib.clone();
    assert(lib@ =~= ctx.lib@);
    r.push(lib);
    r.push(opt_ephemeral_bytes());
    r.push(bool_bytes(ctx.ephemeral));
    r
}

/// Parses a server command line, program name included.
///
/// Returns the context exactly when the command line has the
/// expected form, and a usage error for every other argument list.
/// The parsed context carries the default launch policy.
pub fn parse_server_args(args: &Vec<Vec<u8>>) -> (r: Result<Context, Error>)
    ensures
        r is Ok <==> valid_server_args(args@),
        r matches Ok(c) ==> {
            &&& c.home@ == args@[2]@
            &&& c.lib@ == args@[4]@
            &&& c.ephemeral == (args@[6]@ == lit_true())
            &&& c.policy == Policy::Robust
        },
        r matches Err(e) ==> e matches Error::UsageError,
{
    if args.len() != 7 {
        return Err(Error::UsageError);
    }
    let home_marker = opt_home_bytes();
    let lib_marker = opt_lib_bytes();
    let eph_marker = opt_ephemeral_bytes();
    if !bytes_eq(args[1].as_slice(), home_marker.as_slice()) {
        return Err(Error::UsageError);
    }
    if !bytes_eq(args[3].as_slice(), lib_marker.as_slice()) {
        return Err(Error::UsageError);
    }
    if !bytes_eq(args[5].as_slice(), eph_marker.as_slice()) {
        return Err(Error::UsageError);
    }
    let true_lit = bool_bytes(true);
    let false_lit = bool_bytes(false);
    let is_true = bytes_eq(args[6].as_slice(), true_lit.as_slice());
    let is_false = bytes_eq(args[6].as_slice(), false_lit.as_slice());
    if !is_true && !is_false {
        return Err(Error::UsageError);
    }
    let home = args[2].clone();
    let lib = args[4].clone();
    assert(home@ =~= args@[2]@);
    assert(lib@ =~= args@[4]@);
    Ok(Context { home, lib, ephemeral: is_true, policy: Policy::Robust })
}

/// Law: the command line that the launcher builds is exactly what
/// the server-side parser accepts, for every context; the parsed
/// context repeats the built one's home, library directory, and
/// ephemeral flag.
pub fn check_args_round_trip(exe: Vec<u8>, ctx: &Context) -> (r: Result<Context, Error>)
    ensures
        r is Ok,
        r matches Ok(c) ==> {
            &&& c.home@ == ctx.home@
            &&& c.lib@ == ctx.lib@
            &&& c.ephemeral == ctx.ephemeral
        },
{
    let built = build_server_args(ctx);
    let mut argv: Vec<Vec<u8>> = Vec::new();
    argv.push(exe);
    let a0 = built[0].clone();
    let a1 = built[1].clone();
    let a2 = built[2].clone();
    let a3 = built[3].clone();
    let a4 = built[4].clone();
    let a5 = built[5].clone();
    assert(a0@ =~= built@[0]@);
    assert(a1@ =~= built@[1]@);
    assert(a2@ =~= built@[2]@);
    assert(a3@ =~= built@[3]@);
    assert(a4@ =~= built@[4]@);
    assert(a5@ =~= built@[5]@);
    argv.push(a0);
    argv.push(a1);
    argv.push(a2);
    argv.push(a3);
    argv.push(a4);
    argv.push(a5);
    parse_server_args(&argv)
}

} // verus!
