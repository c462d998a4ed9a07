//! The client's connect protocol and the service's bootstrap
//! protocol.
//!
//! Both protocols alternate outside work — locking the rendezvous
//! file, dialing TCP connections, launching a server — with
//! decisions.  The decisions stand here as step functions over
//! explicit phases: the caller performs the returned action, feeds
//! the outcome back as an event, and repeats until the action is
//! `Done` or `Fail`.  Every decision the protocols take is pinned
//! down by the step functions' contracts.

use vstd::prelude::*;
use crate::addr::{Addr, addr_text};
use crate::context::Policy;
use crate::cookie::Cookie;
use crate::errors::Error;
use crate::record::split_record;

verus! {

/// The two ways to stand a server up.
#[derive(Clone, Copy, Debug, PartialEq, Eq, Structural)]
pub enum Launcher {
    /// Fork the service executable as a detached child process.
    External,
    /// Start a worker thread inside the current process.
    InProcess,
}

/// How a rendezvous file's bytes read as a live record: the cookie
/// bytes and the address, or `None` when the file is too short or
/// its trailing bytes are not canonical address text.
pub open spec fn record_of(bytes: Seq<u8>) -> Option<(Seq<u8>, Addr)> {
    match split_record(bytes) {
        Some(p) => if exists|a: Addr| p.1 == addr_text(a) {
            Some((p.0, choose|a: Addr| p.1 == addr_text(a)))
        } else {
            None
        },
        None => None,
    }
}

/// The client's position inside the connect protocol.
pub enum ConnectPhase {
    /// Before the rendezvous file is opened.
    Opening,
    /// The lock is held; the file has not been read yet.
    Reading,
    /// A full record was found; the recorded address is being
    /// dialed.
    DialingExisting { cookie: Cookie, addr: Addr },
    /// The recorded endpoint was dead; the file is being cleared and
    /// the lock released before a restart.
    Restarting,
    /// The file held no record; a launcher is starting a server.
    Launching { cookie: Cookie, launcher: Launcher, fallback: Option<Launcher> },
    /// A server is up; its initialization connection is being
    /// dialed.
    DialingInit { cookie: Cookie, addr: Addr, external: bool },
    /// The cookie travels on the throwaway initialization
    /// connection.
    SendingInit { cookie: Cookie, addr: Addr, external: bool },
    /// External servers only: the record goes into the file.
    Registering { cookie: Cookie, addr: Addr },
    /// The lock is being released before the real session.
    Unlocking { cookie: Cookie, addr: Addr },
    /// The real session is being dialed.
    DialingSession { cookie: Cookie, addr: Addr },
    /// The cookie travels as the session's first bytes.
    SendingSession { cookie: Cookie, addr: Addr },
    /// The session is established.
    Connected { addr: Addr },
    /// The protocol failed.
    Failed { error: Error },
}

/// The outside work that the caller performs between steps.
#[derive(Clone, Copy, Debug, PartialEq, Eq, Structural)]
pub enum ConnectAction {
    /// Ensure the parent directory exists, open the rendezvous file
    /// read-write (creating it owner-only), and take its exclusive
    /// lock, blocking.
    OpenRendezvous,
    /// Read the whole rendezvous file.
    ReadFile,
    /// Open a TCP connection to `addr`.
    Dial { addr: Addr },
    /// Truncate the file to empty and release the lock.
    ClearAndUnlock,
    /// Bind a fresh loopback listener on a kernel-assigned port and
    /// start a server on it with `launcher`.
    Launch { launcher: Launcher },
    /// Send the current phase's cookie on the connection dialed
    /// last; when `dispose` is set, close that connection afterwards.
    SendCookie { dispose: bool },
    /// Replace the file's contents with the record of the current
    /// phase's cookie and address.
    WriteRecord,
    /// Release the lock.
    Unlock,
    /// The protocol is complete.
    Done,
    /// Give up.
    Fail,
}

/// What the outside work reported back.
pub enum ConnectEvent {
    /// The rendezvous file is open and exclusively locked.
    Opened,
    /// The file's bytes.
    FileRead { bytes: Vec<u8> },
    /// The last dial succeeded.
    DialOk,
    /// The last dial failed.
    DialFailed,
    /// The file was cleared and the lock released.
    ClearedAndUnlocked,
    /// The launcher started a server listening on `addr`.
    Launched { addr: Addr },
    /// The launcher failed.
    LaunchFailed,
    /// The cookie was sent.
    Sent,
    /// Sending the cookie failed.
    SendFailed,
    /// The record was written.
    Wrote,
    /// Writing the record failed.
    WriteFailed,
    /// The lock was released.
    Unlocked,
}

/// Every cookie a phase carries is a full-length cookie.
pub open spec fn connect_phase_wf(phase: ConnectPhase) -> bool {
    match phase {
        ConnectPhase::DialingExisting { cookie, .. } => cookie.wf(),
        ConnectPhase::Launching { cookie, .. } => cookie.wf(),
        ConnectPhase::DialingInit { cookie, .. } => cookie.wf(),
        ConnectPhase::SendingInit { cookie, .. } => cookie.wf(),
        ConnectPhase::Registering { cookie, .. } => cookie.wf(),
        ConnectPhase::Unlocking { cookie, .. } => cookie.wf(),
        ConnectPhase::DialingSession { cookie, .. } => cookie.wf(),
        ConnectPhase::SendingSession { cookie, .. } => cookie.wf(),
        _ => true,
    }
}

/// The launcher a policy tries first, and the one it falls back to.
pub open spec fn launch_plan(policy: Policy) -> (Launcher, Option<Launcher>) {
    match policy {
        Policy::InProcess => (Launcher::InProcess, None),
        Policy::External => (Launcher::External, None),
        Policy::Robust => (Launcher::External, Some(Launcher::InProcess)),
    }
}

/// Whether `event` is an outcome that the phase's pending action can
/// report.
pub open spec fn connect_conforming(phase: ConnectPhase, event: ConnectEvent) -> bool {
    match (phase, event) {
        (ConnectPhase::Opening, ConnectEvent::Opened) => true,
        (ConnectPhase::Reading, ConnectEvent::FileRead { .. }) => true,
        (ConnectPhase::DialingExisting { .. }, ConnectEvent::DialOk) => true,
        (ConnectPhase::DialingExisting { .. }, ConnectEvent::DialFailed) => true,
        (ConnectPhase::Restarting, ConnectEvent::ClearedAndUnlocked) => true,
        (ConnectPhase::Launching { .. }, ConnectEvent::Launched { .. }) => true,
        (ConnectPhase::Launching { .. }, ConnectEvent::LaunchFailed) => true,
        (ConnectPhase::DialingInit { .. }, ConnectEvent::DialOk) => true,
        (ConnectPhase::DialingInit { .. }, ConnectEvent::DialFailed) => true,
        (ConnectPhase::SendingInit { .. }, ConnectEvent::Sent) => true,
        (ConnectPhase::SendingInit { .. }, ConnectEvent::SendFailed) => true,
        (ConnectPhase::Registering { .. }, ConnectEvent::Wrote) => true,
        (ConnectPhase::Registering { .. }, ConnectEvent::WriteFailed) => true,
        (ConnectPhase::Unlocking { .. }, ConnectEvent::Unlocked) => true,
        (ConnectPhase::DialingSession { .. }, ConnectEvent::DialOk) => true,
        (ConnectPhase::DialingSession { .. }, ConnectEvent::DialFailed) => true,
        (ConnectPhase::SendingSession { .. }, ConnectEvent::Sent) => true,
        (ConnectPhase::SendingSession { .. }, ConnectEvent::SendFailed) => true,
        _ => false,
    }
}

/// The first step of the connect protocol: open and lock the
/// rendezvous file.
pub fn connect_start() -> (r: (ConnectPhase, ConnectAction))
    ensures
        r.0 is Opening,
        r.1 == ConnectAction::OpenRendezvous,
        connect_phase_wf(r.0),
{
    (ConnectPhase::Opening, ConnectAction::OpenRendezvous)
}

/// One decision of the connect protocol.
///
/// `fresh` is a cookie that the step consumes when the rendezvous
/// file turns out to be empty; the caller samples it beforehand.
pub fn connect_step(phase: ConnectPhase, event: ConnectEvent, policy: Policy, fresh: Cookie) -> (r:
    (ConnectPhase, ConnectAction))
    requires
        connect_phase_wf(phase),
        fresh.wf(),
    ensures
        connect_phase_wf(r.0),
        // Opening the file leads to reading it.
        (phase is Opening && event is Opened) ==> (r.0 is Reading && r.1
            == ConnectAction::ReadFile),
        // A full record with parsable address text: dial it.
        phase is Reading ==> (event matches ConnectEvent::FileRead { bytes } ==> (record_of(
            bytes@,
        ) matches Some(p) ==> (r.0 matches ConnectPhase::DialingExisting { cookie, addr }
            && cookie@ == p.0 && addr == p.1 && r.1 == (ConnectAction::Dial { addr: p.1 })))),
        // An empty (or shorter than a cookie) file: start a server,
        // first launcher per policy.
        phase is Reading ==> (event matches ConnectEvent::FileRead { bytes } ==> (split_record(
            bytes@,
        ) is None ==> (r.0 matches ConnectPhase::Launching { cookie, launcher, fallback }
            && cookie == fresh && (launcher, fallback) == launch_plan(policy) && r.1
            == (ConnectAction::Launch { launcher: launch_plan(policy).0 })))),
        // A full record whose trailing bytes are not address text:
        // clear the file, release the lock, and restart.
        phase is Reading ==> (event matches ConnectEvent::FileRead { bytes } ==> ((split_record(
            bytes@,
        ) is Some && record_of(bytes@) is None) ==> (r.0 is Restarting && r.1
            == ConnectAction::ClearAndUnlock))),
        // The recorded endpoint answered: the cookie goes out on
        // that same connection, which becomes the session.
        phase matches ConnectPhase::DialingExisting { cookie, addr } ==> (event is DialOk ==> (
        r.0 == (ConnectPhase::SendingSession { cookie, addr }) && r.1
            == (ConnectAction::SendCookie { dispose: false }))),
        // The recorded endpoint was dead: clear the stale record,
        // release the lock, and restart.
        ((phase matches ConnectPhase::DialingExisting { .. }) && event is DialFailed) ==> (r.0
            is Restarting && r.1 == ConnectAction::ClearAndUnlock),
        (phase is Restarting && event is ClearedAndUnlocked) ==> (r.0 is Opening && r.1
            == ConnectAction::OpenRendezvous),
        // A server came up: dial its throwaway initialization
        // connection.
        phase matches ConnectPhase::Launching { cookie, launcher, fallback } ==> (event matches
            ConnectEvent::Launched { addr } ==> (r.0 == (ConnectPhase::DialingInit {
            cookie,
            addr,
            external: launcher is External,
        }) && r.1 == (ConnectAction::Dial { addr }))),
        // The initialization connection is up: the cookie goes out
        // on it, and the connection is then discarded.
        phase matches ConnectPhase::DialingInit { cookie, addr, external } ==> (event is DialOk
            ==> (r.0 == (ConnectPhase::SendingInit { cookie, addr, external }) && r.1
            == (ConnectAction::SendCookie { dispose: true }))),
        ((phase matches ConnectPhase::DialingInit { .. }) && event is DialFailed) ==> (r.0
            matches ConnectPhase::Failed { error } && error is Io && r.1 == ConnectAction::Fail),
        // The launcher failed: fall back when the policy offers a
        // second launcher, otherwise give up.
        phase matches ConnectPhase::Launching { cookie, launcher, fallback } ==> (event
            is LaunchFailed ==> (fallback matches Some(fb) ==> (r.0 == (ConnectPhase::Launching {
            cookie,
            launcher: fb,
            fallback: None,
        }) && r.1 == (ConnectAction::Launch { launcher: fb })))),
        ((phase matches ConnectPhase::Launching { fallback: None, .. }) && event is LaunchFailed)
            ==> (r.0 matches ConnectPhase::Failed { error } && error is LaunchFailed && r.1
            == ConnectAction::Fail),
        // Only external servers are registered in the file;
        // in-process servers die with this process and are not
        // discoverable.
        phase matches ConnectPhase::SendingInit { cookie, addr, external } ==> (event is Sent
            ==> (external ==> (r.0 == (ConnectPhase::Registering { cookie, addr }) && r.1
            == ConnectAction::WriteRecord))),
        phase matches ConnectPhase::SendingInit { cookie, addr, external } ==> (event is Sent
            ==> (!external ==> (r.0 == (ConnectPhase::Unlocking { cookie, addr }) && r.1
            == ConnectAction::Unlock))),
        phase matches ConnectPhase::Registering { cookie, addr } ==> (event is Wrote ==> (r.0
            == (ConnectPhase::Unlocking { cookie, addr }) && r.1 == ConnectAction::Unlock)),
        // Lock released: dial the real session.
        phase matches ConnectPhase::Unlocking { cookie, addr } ==> (event is Unlocked ==> (r.0
            == (ConnectPhase::DialingSession { cookie, addr }) && r.1 == (ConnectAction::Dial {
            addr,
        }))),
        phase matches ConnectPhase::DialingSession { cookie, addr } ==> (event is DialOk ==> (
        r.0 == (ConnectPhase::SendingSession { cookie, addr }) && r.1
            == (ConnectAction::SendCookie { dispose: false }))),
        // The session carries the cookie as its first bytes; once
        // they are written the connection is established.
        phase matches ConnectPhase::SendingSession { cookie, addr } ==> (event is Sent ==> (r.0
            == (ConnectPhase::Connected { addr }) && r.1 == ConnectAction::Done)),
        // Hard failures surface to the caller.
        ((phase matches ConnectPhase::DialingSession { .. }) && event is DialFailed) ==> (r.0
            matches ConnectPhase::Failed { error } && error is Io && r.1 == ConnectAction::Fail),
        ((phase matches ConnectPhase::SendingInit { .. }) && event is SendFailed) ==> (r.0
            matches ConnectPhase::Failed { error } && error is Io && r.1 == ConnectAction::Fail),
        ((phase matches ConnectPhase::SendingSession { .. }) && event is SendFailed) ==> (r.0
            matches ConnectPhase::Failed { error } && error is Io && r.1 == ConnectAction::Fail),
        ((phase matches ConnectPhase::Registering { .. }) && event is WriteFailed) ==> (r.0
            matches ConnectPhase::Failed { error } && error is Io && r.1 == ConnectAction::Fail),
        // A driver that reports an outcome the pending action cannot
        // produce ends the protocol.
        !connect_conforming(phase, event) ==> (r.0 is Failed && r.1 == ConnectAction::Fail),
        // At most one server start per epoch: a launch is ordered
        // only on an empty rendezvous, or as the robust fallback
        // after the first launcher failed.
        (r.1 matches ConnectAction::Launch { .. }) ==> ((phase is Reading && (event matches
            ConnectEvent::FileRead { bytes } && split_record(bytes@) is None)) || (phase matches
            ConnectPhase::Launching { fallback: Some(..), .. } && event is LaunchFailed)),
        // The rendezvous file is written only for an external server
        // that has latched the cookie.
        r.1 == ConnectAction::WriteRecord ==> (phase matches ConnectPhase::SendingInit {
            external: true,
            ..
        } && event is Sent),
{
    match (phase, event) {
        (ConnectPhase::Opening, ConnectEvent::Opened) => (
            ConnectPhase::Reading,
            ConnectAction::ReadFile,
        ),
        (ConnectPhase::Reading, ConnectEvent::FileRead { bytes }) => {
            let ghost bs = bytes@;
            match crate::record::decode_record(bytes) {
                Some((cookie, trailer)) => {
                    match Addr::parse(trailer.as_slice()) {
                        Some(addr) => {
                            proof {
                                record_of_some_elim(bs, cookie@, trailer@, addr);
                            }
                            (
                                ConnectPhase::DialingExisting { cookie, addr },
                                ConnectAction::Dial { addr },
                            )
                        },
                        None => (ConnectPhase::Restarting, ConnectAction::ClearAndUnlock),
                    }
                },
                None => {
                    let (launcher, fallback) = first_launcher(policy);
                    (
                        ConnectPhase::Launching { cookie: fresh, launcher, fallback },
                        ConnectAction::Launch { launcher },
                    )
                },
            }
        },
        (ConnectPhase::DialingExisting { cookie, addr }, ConnectEvent::DialOk) => (
            ConnectPhase::SendingSession { cookie, addr },
            ConnectAction::SendCookie { dispose: false },
        ),
        (ConnectPhase::DialingExisting { .. }, ConnectEvent::DialFailed) => (
            ConnectPhase::Restarting,
            ConnectAction::ClearAndUnlock,
        ),
        (ConnectPhase::Restarting, ConnectEvent::ClearedAndUnlocked) => (
            ConnectPhase::Opening,
            ConnectAction::OpenRendezvous,
        ),
        (ConnectPhase::Launching { cookie, launcher, .. }, ConnectEvent::Launched { addr }) => (
            ConnectPhase::DialingInit {
                cookie,
                addr,
                external: matches!(launcher, Launcher::External),
            },
            ConnectAction::Dial { addr },
        ),
        (ConnectPhase::DialingInit { cookie, addr, external }, ConnectEvent::DialOk) => (
            ConnectPhase::SendingInit { cookie, addr, external },
            ConnectAction::SendCookie { dispose: true },
        ),
        (ConnectPhase::DialingInit { .. }, ConnectEvent::DialFailed) => (
            ConnectPhase::Failed { error: Error::Io },
            ConnectAction::Fail,
        ),
        (
            ConnectPhase::Launching { cookie, fallback: Some(fb), .. },
            ConnectEvent::LaunchFailed,
        ) => (
            ConnectPhase::Launching { cookie, launcher: fb, fallback: None },
            ConnectAction::Launch { launcher: fb },
        ),
        (ConnectPhase::Launching { fallback: None, .. }, ConnectEvent::LaunchFailed) => (
            ConnectPhase::Failed { error: Error::LaunchFailed },
            ConnectAction::Fail,
        ),
        (ConnectPhase::SendingInit { cookie, addr, external: true }, ConnectEvent::Sent) => (
            ConnectPhase::Registering { cookie, addr },
            ConnectAction::WriteRecord,
        ),
        (ConnectPhase::SendingInit { cookie, addr, external: false }, ConnectEvent::Sent) => (
            ConnectPhase::Unlocking { cookie, addr },
            ConnectAction::Unlock,
        ),
        (ConnectPhase::Registering { cookie, addr }, ConnectEvent::Wrote) => (
            ConnectPhase::Unlocking { cookie, addr },
            ConnectAction::Unlock,
        ),
        (ConnectPhase::Unlocking { cookie, addr }, ConnectEvent::Unlocked) => (
            ConnectPhase::DialingSession { cookie, addr },
            ConnectAction::Dial { addr },
        ),
        (ConnectPhase::DialingSession { cookie, addr }, ConnectEvent::DialOk) => (
            ConnectPhase::SendingSession { cookie, addr },
            ConnectAction::SendCookie { dispose: false },
        ),
        (ConnectPhase::SendingSession { addr, .. }, ConnectEvent::Sent) => (
            ConnectPhase::Connected { addr },
            ConnectAction::Done,
        ),
        (ConnectPhase::DialingSession { .. }, ConnectEvent::DialFailed) => (
            ConnectPhase::Failed { error: Error::Io },
            ConnectAction::Fail,
        ),
        (ConnectPhase::SendingInit { .. }, ConnectEvent::SendFailed) => (
            ConnectPhase::Failed { error: Error::Io },
            ConnectAction::Fail,
        ),
        (ConnectPhase::SendingSession { .. }, ConnectEvent::SendFailed) => (
            ConnectPhase::Failed { error: Error::Io },
            ConnectAction::Fail,
        ),
        (ConnectPhase::Registering { .. }, ConnectEvent::WriteFailed) => (
            ConnectPhase::Failed { error: Error::Io },
            ConnectAction::Fail,
        ),
        _ => (ConnectPhase::Failed { error: Error::Io }, ConnectAction::Fail),
    }
}

/// Picks the first launcher and the fallback for a policy.
fn first_launcher(policy: Policy) -> (r: (Launcher, Option<Launcher>))
    ensures
        r == launch_plan(policy),
{
    match policy {
        Policy::InProcess => (Launcher::InProcess, None),
        Policy::External => (Launcher::External, None),
        Policy::Robust => (Launcher::External, Some(Launcher::InProcess)),
    }
}

/// The service's position inside the bootstrap protocol.
///
/// Bootstrap is the self-start path of a long-lived daemon: if a
/// live server is already registered, it reports that; otherwise it
/// starts an in-process worker and — unlike a client's connect —
/// registers it in the rendezvous file, because the worker lives as
/// long as this daemon process and later clients should discover it.
pub enum BootstrapPhase {
    /// Before the rendezvous file is opened.
    Opening,
    /// The lock is held; the file has not been read yet.
    Reading,
    /// A full record was found; the recorded address is being
    /// probed.
    Probing { cookie: Cookie, addr: Addr },
    /// The probe connection is up; the recorded cookie goes out on
    /// it.
    ProbeSending { cookie: Cookie, addr: Addr },
    /// No live server: an in-process worker is starting.
    Launching { cookie: Cookie },
    /// The worker's record goes into the file.
    Registering { cookie: Cookie, addr: Addr },
    /// The lock is being released.
    Unlocking { cookie: Cookie, addr: Addr },
    /// The initialization connection is being dialed.
    DialingInit { cookie: Cookie, addr: Addr },
    /// The cookie travels on the initialization connection.
    SendingInit { cookie: Cookie, addr: Addr },
    /// This process now hosts the registered server.
    Running { addr: Addr },
    /// A live server was already registered; nothing was started.
    AlreadyRunning,
    /// The protocol failed.
    Failed { error: Error },
}

/// Every cookie a bootstrap phase carries is a full-length cookie.
pub open spec fn bootstrap_phase_wf(phase: BootstrapPhase) -> bool {
    match phase {
        BootstrapPhase::Probing { cookie, .. } => cookie.wf(),
        BootstrapPhase::ProbeSending { cookie, .. } => cookie.wf(),
        BootstrapPhase::Launching { cookie, .. } => cookie.wf(),
        BootstrapPhase::Registering { cookie, .. } => cookie.wf(),
        BootstrapPhase::Unlocking { cookie, .. } => cookie.wf(),
        BootstrapPhase::DialingInit { cookie, .. } => cookie.wf(),
        BootstrapPhase::SendingInit { cookie, .. } => cookie.wf(),
        _ => true,
    }
}

/// Whether `event` is an outcome that the bootstrap phase's pending
/// action can report.
pub open spec fn bootstrap_conforming(phase: BootstrapPhase, event: ConnectEvent) -> bool {
    match (phase, event) {
        (BootstrapPhase::Opening, ConnectEvent::Opened) => true,
        (BootstrapPhase::Reading, ConnectEvent::FileRead { .. }) => true,
        (BootstrapPhase::Probing { .. }, ConnectEvent::DialOk) => true,
        (BootstrapPhase::Probing { .. }, ConnectEvent::DialFailed) => true,
        (BootstrapPhase::ProbeSending { .. }, ConnectEvent::Sent) => true,
        (BootstrapPhase::ProbeSending { .. }, ConnectEvent::SendFailed) => true,
        (BootstrapPhase::Launching { .. }, ConnectEvent::Launched { .. }) => true,
        (BootstrapPhase::Launching { .. }, ConnectEvent::LaunchFailed) => true,
        (BootstrapPhase::Registering { .. }, ConnectEvent::Wrote) => true,
        (BootstrapPhase::Registering { .. }, ConnectEvent::WriteFailed) => true,
        (BootstrapPhase::Unlocking { .. }, ConnectEvent::Unlocked) => true,
        (BootstrapPhase::DialingInit { .. }, ConnectEvent::DialOk) => true,
        (BootstrapPhase::DialingInit { .. }, ConnectEvent::DialFailed) => true,
        (BootstrapPhase::SendingInit { .. }, ConnectEvent::Sent) => true,
        (BootstrapPhase::SendingInit { .. }, ConnectEvent::SendFailed) => true,
        _ => false,
    }
}

/// The first step of the bootstrap protocol: open and lock the
/// rendezvous file.
pub fn bootstrap_start() -> (r: (BootstrapPhase, ConnectAction))
    ensures
        r.0 is Opening,
        r.1 == ConnectAction::OpenRendezvous,
        bootstrap_phase_wf(r.0),
{
    (BootstrapPhase::Opening, ConnectAction::OpenRendezvous)
}

/// One decision of the bootstrap protocol.
///
/// `fresh` is a cookie that the step consumes when no live server is
/// found; the caller samples it beforehand.
pub fn bootstrap_step(phase: BootstrapPhase, event: ConnectEvent, fresh: Cookie) -> (r: (
    BootstrapPhase,
    ConnectAction,
))
    requires
        bootstrap_phase_wf(phase),
        fresh.wf(),
    ensures
        bootstrap_phase_wf(r.0),
        (phase is Opening && event is Opened) ==> (r.0 is Reading && r.1
            == ConnectAction::ReadFile),
        // A full record: probe the recorded endpoint with its own
        // cookie.
        phase is Reading ==> (event matches ConnectEvent::FileRead { bytes } ==> (record_of(
            bytes@,
        ) matches Some(p) ==> (r.0 matches BootstrapPhase::Probing { cookie, addr } && cookie@
            == p.0 && addr == p.1 && r.1 == (ConnectAction::Dial { addr: p.1 })))),
        // No record: start the in-process worker.
        phase is Reading ==> (event matches ConnectEvent::FileRead { bytes } ==> (record_of(
            bytes@,
        ) is None ==> (r.0 == (BootstrapPhase::Launching { cookie: fresh }) && r.1
            == (ConnectAction::Launch { launcher: Launcher::InProcess })))),
        phase matches BootstrapPhase::Probing { cookie, addr } ==> (event is DialOk ==> (r.0
            == (BootstrapPhase::ProbeSending { cookie, addr }) && r.1
            == (ConnectAction::SendCookie { dispose: true }))),
        // A dead or unreachable record: start the worker anyway.
        ((phase matches BootstrapPhase::Probing { .. }) && event is DialFailed) ==> (r.0
            == (BootstrapPhase::Launching { cookie: fresh }) && r.1 == (ConnectAction::Launch {
            launcher: Launcher::InProcess,
        })),
        // The probe delivered the cookie: a server is already
        // running, nothing to do.
        ((phase matches BootstrapPhase::ProbeSending { .. }) && event is Sent) ==> (r.0
            is AlreadyRunning && r.1 == ConnectAction::Done),
        ((phase matches BootstrapPhase::ProbeSending { .. }) && event is SendFailed) ==> (r.0
            == (BootstrapPhase::Launching { cookie: fresh }) && r.1 == (ConnectAction::Launch {
            launcher: Launcher::InProcess,
        })),
        // The worker is up: bootstrap registers it, in contrast with
        // a client's connect, where in-process servers stay
        // unregistered.
        phase matches BootstrapPhase::Launching { cookie } ==> (event matches
            ConnectEvent::Launched { addr } ==> (r.0 == (BootstrapPhase::Registering {
            cookie,
            addr,
        }) && r.1 == ConnectAction::WriteRecord)),
        ((phase matches BootstrapPhase::Launching { .. }) && event is LaunchFailed) ==> (r.0
            matches BootstrapPhase::Failed { error } && error is LaunchFailed && r.1
            == ConnectAction::Fail),
        phase matches BootstrapPhase::Registering { cookie, addr } ==> (event is Wrote ==> (r.0
            == (BootstrapPhase::Unlocking { cookie, addr }) && r.1 == ConnectAction::Unlock)),
        ((phase matches BootstrapPhase::Registering { .. }) && event is WriteFailed) ==> (r.0
            matches BootstrapPhase::Failed { error } && error is Io && r.1
            == ConnectAction::Fail),
        // Lock released: deliver the cookie on a throwaway
        // initialization connection.
        phase matches BootstrapPhase::Unlocking { cookie, addr } ==> (event is Unlocked ==> (r.0
            == (BootstrapPhase::DialingInit { cookie, addr }) && r.1 == (ConnectAction::Dial {
            addr,
        }))),
        phase matches BootstrapPhase::DialingInit { cookie, addr } ==> (event is DialOk ==> (r.0
            == (BootstrapPhase::SendingInit { cookie, addr }) && r.1
            == (ConnectAction::SendCookie { dispose: true }))),
        ((phase matches BootstrapPhase::DialingInit { .. }) && event is DialFailed) ==> (r.0
            matches BootstrapPhase::Failed { error } && error is Io && r.1
            == ConnectAction::Fail),
        phase matches BootstrapPhase::SendingInit { cookie, addr } ==> (event is Sent ==> (r.0
            == (BootstrapPhase::Running { addr }) && r.1 == ConnectAction::Done)),
        ((phase matches BootstrapPhase::SendingInit { .. }) && event is SendFailed) ==> (r.0
            matches BootstrapPhase::Failed { error } && error is Io && r.1
            == ConnectAction::Fail),
        // A driver that reports an outcome the pending action cannot
        // produce ends the protocol.
        !bootstrap_conforming(phase, event) ==> (r.0 is Failed && r.1 == ConnectAction::Fail),
        // Bootstrap never forks an external process.
        r.1 matches ConnectAction::Launch { launcher } ==> launcher is InProcess,
        // Bootstrap registers exactly the worker it started.
        r.1 == ConnectAction::WriteRecord ==> (phase matches BootstrapPhase::Launching { .. }
            && event matches ConnectEvent::Launched { .. }),
{
    match (phase, event) {
        (BootstrapPhase::Opening, ConnectEvent::Opened) => (
            BootstrapPhase::Reading,
            ConnectAction::ReadFile,
        ),
        (BootstrapPhase::Reading, ConnectEvent::FileRead { bytes }) => {
            let ghost bs = bytes@;
            match crate::record::decode_record(bytes) {
                Some((cookie, trailer)) => {
                    match Addr::parse(trailer.as_slice()) {
                        Some(addr) => {
                            proof {
                                record_of_some_elim(bs, cookie@, trailer@, addr);
                            }
                            (
                                BootstrapPhase::Probing { cookie, addr },
                                ConnectAction::Dial { addr },
                            )
                        },
                        None => (
                            BootstrapPhase::Launching { cookie: fresh },
                            ConnectAction::Launch { launcher: Launcher::InProcess },
                        ),
                    }
                },
                None => (
                    BootstrapPhase::Launching { cookie: fresh },
                    ConnectAction::Launch { launcher: Launcher::InProcess },
                ),
            }
        },
        (BootstrapPhase::Probing { cookie, addr }, ConnectEvent::DialOk) => (
            BootstrapPhase::ProbeSending { cookie, addr },
            ConnectAction::SendCookie { dispose: true },
        ),
        (BootstrapPhase::Probing { .. }, ConnectEvent::DialFailed) => (
            BootstrapPhase::Launching { cookie: fresh },
            ConnectAction::Launch { launcher: Launcher::InProcess },
        ),
        (BootstrapPhase::ProbeSending { .. }, ConnectEvent::Sent) => (
            BootstrapPhase::AlreadyRunning,
            ConnectAction::Done,
        ),
        (BootstrapPhase::ProbeSending { .. }, ConnectEvent::SendFailed) => (
            BootstrapPhase::Launching { cookie: fresh },
            ConnectAction::Launch { launcher: Launcher::InProcess },
        ),
        (BootstrapPhase::Launching { cookie }, ConnectEvent::Launched { addr }) => (
            BootstrapPhase::Registering { cookie, addr },
            ConnectAction::WriteRecord,
        ),
        (BootstrapPhase::Launching { .. }, ConnectEvent::LaunchFailed) => (
            BootstrapPhase::Failed { error: Error::LaunchFailed },
            ConnectAction::Fail,
        ),
        (BootstrapPhase::Registering { cookie, addr }, ConnectEvent::Wrote) => (
            BootstrapPhase::Unlocking { cookie, addr },
            ConnectAction::Unlock,
        ),
        (BootstrapPhase::Registering { .. }, ConnectEvent::WriteFailed) => (
            BootstrapPhase::Failed { error: Error::Io },
            ConnectAction::Fail,
        ),
        (BootstrapPhase::Unlocking { cookie, addr }, ConnectEvent::Unlocked) => (
            BootstrapPhase::DialingInit { cookie, addr },
            ConnectAction::Dial { addr },
        ),
        (BootstrapPhase::DialingInit { cookie, addr }, ConnectEvent::DialOk) => (
            BootstrapPhase::SendingInit { cookie, addr },
            ConnectAction::SendCookie { dispose: true },
        ),
        (BootstrapPhase::DialingInit { .. }, ConnectEvent::DialFailed) => (
            BootstrapPhase::Failed { error: Error::Io },
            ConnectAction::Fail,
        ),
        (BootstrapPhase::SendingInit { addr, .. }, ConnectEvent::Sent) => (
            BootstrapPhase::Running { addr },
            ConnectAction::Done,
        ),
        (BootstrapPhase::SendingInit { .. }, ConnectEvent::SendFailed) => (
            BootstrapPhase::Failed { error: Error::Io },
            ConnectAction::Fail,
        ),
        _ => (BootstrapPhase::Failed { error: Error::Io }, ConnectAction::Fail),
    }
}

/// The bytes that the `WriteRecord` action puts into the file: the
/// phase's cookie followed by the canonical text of its address.
pub fn record_to_write(cookie: &Cookie, addr: &Addr) -> (r: Vec<u8>)
    requires
        cookie.wf(),
    ensures
        r@ == crate::record::record_bytes(cookie@, addr_text(*addr)),
        record_of(r@) == Some((cookie@, *addr)),
{
    let text = addr.format();
    let r = crate::record::encode_record(cookie, text.as_slice());
    proof {
        lemma_registered_record_reads_back(cookie@, *addr);
    }
    r
}

/// Law: a registered record reads back as exactly the cookie and
/// address that were written, for every cookie and address.  What
/// one client registers, the next client's read step dials.
pub proof fn lemma_registered_record_reads_back(cookie: Seq<u8>, a: Addr)
    requires
        cookie.len() == crate::COOKIE_LEN,
    ensures
        record_of(crate::record::record_bytes(cookie, addr_text(a))) == Some((cookie, a)),
{
    crate::record::lemma_record_round_trip(cookie, addr_text(a));
    record_of_some_elim(
        crate::record::record_bytes(cookie, addr_text(a)),
        cookie,
        addr_text(a),
        a,
    );
}

/// When a file splits into a cookie and canonical address text, it
/// reads as exactly that cookie and address.
proof fn record_of_some_elim(bytes: Seq<u8>, cookie: Seq<u8>, trailer: Seq<u8>, addr: Addr)
    requires
        split_record(bytes) == Some((cookie, trailer)),
        trailer == addr_text(addr),
    ensures
        record_of(bytes) == Some((cookie, addr)),
{
    assert(trailer == addr_text(addr));
    let picked = choose|a: Addr| trailer == addr_text(a);
    crate::addr::lemma_addr_text_injective(picked, addr);
}

} // verus!
