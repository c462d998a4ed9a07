//! Launch policy, configuration context, and service descriptors.

use vstd::prelude::*;

verus! {

/// Enumerated choice of launch strategy.
#[derive(Clone, Copy, Debug, PartialEq, Eq, Structural)]
pub enum Policy {
    /// Start a worker thread inside the current process.
    InProcess,
    /// Start a separate service process.
    External,
    /// Try an external process first; on any failure fall back to an
    /// in-process worker.  This is the default.
    Robust,
}

/// The configuration surrounding a descriptor.
#[derive(Debug)]
pub struct Context {
    /// The service's home directory, as path bytes.
    pub home: Vec<u8>,
    /// The service's library directory, as path bytes.
    pub lib: Vec<u8>,
    /// Whether the home directory is ephemeral.
    pub ephemeral: bool,
    /// The launch policy that `connect` uses.
    pub policy: Policy,
}

impl Context {
    /// Field-wise copy.
    pub fn duplicate(&self) -> (r: Context)
        ensures
            r.home@ == self.home@,
            r.lib@ == self.lib@,
            r.ephemeral == self.ephemeral,
            r.policy == self.policy,
    {
        let home = self.home.clone();
        let lib = self.lib.clone();
        assert(home@ =~= self.home@);
        assert(lib@ =~= self.lib@);
        Context { home, lib, ephemeral: self.ephemeral, policy: self.policy }
    }
}

/// The immutable client-side identity of a service: its rendezvous
/// pathname, the executable used to fork the external variant, and
/// the surrounding context.  Path names are held as plain bytes.
#[derive(Debug)]
pub struct Descriptor {
    ctx: Context,
    rendezvous: Vec<u8>,
    executable: Vec<u8>,
}

impl Descriptor {
    /// The descriptor's context.
    pub closed spec fn ctx_spec(&self) -> Context {
        self.ctx
    }

    /// The rendezvous pathname, as bytes.
    pub closed spec fn rendezvous_spec(&self) -> Seq<u8> {
        self.rendezvous@
    }

    /// The executable pathname, as bytes.
    pub closed spec fn executable_spec(&self) -> Seq<u8> {
        self.executable@
    }

    /// Create a descriptor given its rendez-vous point, the path to
    /// the server's executable file, and the surrounding context.
    pub fn new(ctx: Context, rendezvous: Vec<u8>, executable: Vec<u8>) -> (r: Descriptor)
        ensures
            r.ctx_spec() == ctx,
            r.rendezvous_spec() == rendezvous@,
            r.executable_spec() == executable@,
    {
        Descriptor { ctx, rendezvous, executable }
    }

    /// Returns the context.
    pub fn context(&self) -> (r: &Context)
        ensures
            *r == self.ctx_spec(),
    {
        &self.ctx
    }

    /// Returns the rendez-vous point.
    pub fn rendez_vous(&self) -> (r: &Vec<u8>)
        ensures
            r@ == self.rendezvous_spec(),
    {
        &self.rendezvous
    }

    /// Returns the executable path.
    pub fn executable(&self) -> (r: &Vec<u8>)
        ensures
            r@ == self.executable_spec(),
    {
        &self.executable
    }

    /// Field-wise copy.
    pub fn duplicate(&self) -> (r: Descriptor)
        ensures
            r.ctx_spec().home@ == self.ctx_spec().home@,
            r.ctx_spec().lib@ == self.ctx_spec().lib@,
            r.ctx_spec().ephemeral == self.ctx_spec().ephemeral,
            r.ctx_spec().policy == self.ctx_spec().policy,
            r.rendezvous_spec() == self.rendezvous_spec(),
            r.executable_spec() == self.executable_spec(),
    {
        let rendezvous = self.rendezvous.clone();
        let executable = self.executable.clone();
        assert(rendezvous@ =~= self.rendezvous@);
        assert(executable@ =~= self.executable@);
        Descriptor { ctx: self.ctx.duplicate(), rendezvous, executable }
    }
}

} // verus!
