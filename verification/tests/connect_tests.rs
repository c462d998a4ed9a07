use ipc::addr::Addr;
use ipc::connect::{
    bootstrap_start, bootstrap_step, connect_start, connect_step, record_to_write, BootstrapPhase,
    ConnectAction, ConnectEvent, ConnectPhase, Launcher,
};
use ipc::context::Policy;
use ipc::cookie::Cookie;

fn fresh() -> Cookie {
    Cookie::from(&[0xA5u8; 32]).unwrap()
}

#[test]
fn cold_start_in_process_never_registers() {
    // Rendezvous path empty, in-process policy: the session comes up
    // and no step ever writes the rendezvous file.
    let policy = Policy::InProcess;
    let (phase, action) = connect_start();
    assert_eq!(action, ConnectAction::OpenRendezvous);

    let (phase, action) = connect_step(phase, ConnectEvent::Opened, policy, fresh());
    assert_eq!(action, ConnectAction::ReadFile);

    let (phase, action) = connect_step(
        phase,
        ConnectEvent::FileRead { bytes: Vec::new() },
        policy,
        fresh(),
    );
    assert_eq!(action, ConnectAction::Launch { launcher: Launcher::InProcess });

    let served = Addr { port: 50001 };
    let (phase, action) = connect_step(phase, ConnectEvent::Launched { addr: served }, policy, fresh());
    assert_eq!(action, ConnectAction::Dial { addr: served });
    let (phase, action) = connect_step(phase, ConnectEvent::DialOk, policy, fresh());
    assert_eq!(action, ConnectAction::SendCookie { dispose: true });
    assert!(matches!(phase, ConnectPhase::SendingInit { external: false, .. }));

    // After the init cookie is sent, the file is *not* written: the
    // next action releases the lock directly.
    let (phase, action) = connect_step(phase, ConnectEvent::Sent, policy, fresh());
    assert_eq!(action, ConnectAction::Unlock);

    let (phase, action) = connect_step(phase, ConnectEvent::Unlocked, policy, fresh());
    assert_eq!(action, ConnectAction::Dial { addr: served });

    let (phase, action) = connect_step(phase, ConnectEvent::DialOk, policy, fresh());
    assert_eq!(action, ConnectAction::SendCookie { dispose: false });

    let (phase, action) = connect_step(phase, ConnectEvent::Sent, policy, fresh());
    assert_eq!(action, ConnectAction::Done);
    assert!(matches!(phase, ConnectPhase::Connected { addr } if addr.port == 50001));
}

#[test]
fn cold_start_external_registers_and_is_reused() {
    // First client, external policy: the record is written.
    let policy = Policy::External;
    let (phase, _) = connect_start();
    let (phase, _) = connect_step(phase, ConnectEvent::Opened, policy, fresh());
    let (phase, action) = connect_step(
        phase,
        ConnectEvent::FileRead { bytes: Vec::new() },
        policy,
        fresh(),
    );
    assert_eq!(action, ConnectAction::Launch { launcher: Launcher::External });

    let served = Addr { port: 50002 };
    let (phase, action) = connect_step(phase, ConnectEvent::Launched { addr: served }, policy, fresh());
    assert_eq!(action, ConnectAction::Dial { addr: served });
    let (phase, action) = connect_step(phase, ConnectEvent::DialOk, policy, fresh());
    assert_eq!(action, ConnectAction::SendCookie { dispose: true });

    let (phase, action) = connect_step(phase, ConnectEvent::Sent, policy, fresh());
    assert_eq!(action, ConnectAction::WriteRecord);
    let file = match &phase {
        ConnectPhase::Registering { cookie, addr } => {
            assert_eq!(addr.port, 50002);
            record_to_write(cookie, addr)
        },
        _ => panic!("expected a registering phase"),
    };
    assert_eq!(&file[32..], b"127.0.0.1:50002");

    let (phase, action) = connect_step(phase, ConnectEvent::Wrote, policy, fresh());
    assert_eq!(action, ConnectAction::Unlock);
    let (phase, action) = connect_step(phase, ConnectEvent::Unlocked, policy, fresh());
    assert_eq!(action, ConnectAction::Dial { addr: served });
    let (phase, action) = connect_step(phase, ConnectEvent::DialOk, policy, fresh());
    assert_eq!(action, ConnectAction::SendCookie { dispose: false });
    let (_, action) = connect_step(phase, ConnectEvent::Sent, policy, fresh());
    assert_eq!(action, ConnectAction::Done);

    // Second client: reads the record, dials the same address, and
    // never launches.
    let (phase, _) = connect_start();
    let (phase, _) = connect_step(phase, ConnectEvent::Opened, policy, fresh());
    let (phase, action) = connect_step(phase, ConnectEvent::FileRead { bytes: file }, policy, fresh());
    assert_eq!(action, ConnectAction::Dial { addr: served });
    let (phase, action) = connect_step(phase, ConnectEvent::DialOk, policy, fresh());
    assert_eq!(action, ConnectAction::SendCookie { dispose: false });
    let (phase, action) = connect_step(phase, ConnectEvent::Sent, policy, fresh());
    assert_eq!(action, ConnectAction::Done);
    assert!(matches!(phase, ConnectPhase::Connected { addr } if addr.port == 50002));
}

#[test]
fn stale_record_is_cleared_and_replaced() {
    // The file holds a cookie and the unreachable `127.0.0.1:1`.
    let policy = Policy::External;
    let stale_cookie = Cookie::from(&[1u8; 32]).unwrap();
    let stale = record_to_write(&stale_cookie, &Addr { port: 1 });

    let (phase, _) = connect_start();
    let (phase, _) = connect_step(phase, ConnectEvent::Opened, policy, fresh());
    let (phase, action) = connect_step(phase, ConnectEvent::FileRead { bytes: stale }, policy, fresh());
    assert_eq!(action, ConnectAction::Dial { addr: Addr { port: 1 } });

    // The dial fails: clear the file, release the lock, restart.
    let (phase, action) = connect_step(phase, ConnectEvent::DialFailed, policy, fresh());
    assert_eq!(action, ConnectAction::ClearAndUnlock);
    let (phase, action) = connect_step(phase, ConnectEvent::ClearedAndUnlocked, policy, fresh());
    assert_eq!(action, ConnectAction::OpenRendezvous);

    // The restart finds the file empty and spawns a fresh server.
    let (phase, _) = connect_step(phase, ConnectEvent::Opened, policy, fresh());
    let (_, action) = connect_step(
        phase,
        ConnectEvent::FileRead { bytes: Vec::new() },
        policy,
        fresh(),
    );
    assert_eq!(action, ConnectAction::Launch { launcher: Launcher::External });
}

#[test]
fn truncated_record_counts_as_empty() {
    let policy = Policy::InProcess;
    let (phase, _) = connect_start();
    let (phase, _) = connect_step(phase, ConnectEvent::Opened, policy, fresh());
    let (_, action) = connect_step(
        phase,
        ConnectEvent::FileRead { bytes: vec![0u8; 31] },
        policy,
        fresh(),
    );
    assert_eq!(action, ConnectAction::Launch { launcher: Launcher::InProcess });
}

#[test]
fn record_without_address_is_cleared_and_retried() {
    let policy = Policy::InProcess;
    let mut bytes = vec![0u8; 32];
    bytes.extend_from_slice(b"not an address");
    let (phase, _) = connect_start();
    let (phase, _) = connect_step(phase, ConnectEvent::Opened, policy, fresh());
    let (phase, action) = connect_step(phase, ConnectEvent::FileRead { bytes }, policy, fresh());
    assert_eq!(action, ConnectAction::ClearAndUnlock);
    let (_, action) = connect_step(phase, ConnectEvent::ClearedAndUnlocked, policy, fresh());
    assert_eq!(action, ConnectAction::OpenRendezvous);
}

#[test]
fn bootstrap_overwrites_malformed_record_without_clearing() {
    // Bootstrap differs from connect here: a record whose trailing
    // bytes are not address text is simply replaced by the fresh
    // worker's record.
    let mut bytes = vec![0u8; 32];
    bytes.extend_from_slice(b"not an address");
    let (phase, _) = bootstrap_start();
    let (phase, _) = bootstrap_step(phase, ConnectEvent::Opened, fresh());
    let (_, action) = bootstrap_step(phase, ConnectEvent::FileRead { bytes }, fresh());
    assert_eq!(action, ConnectAction::Launch { launcher: Launcher::InProcess });
}

#[test]
fn robust_policy_falls_back_in_process() {
    // The external launcher fails (say, the executable is missing):
    // the robust policy falls back to an in-process worker and the
    // session still comes up.
    let policy = Policy::Robust;
    let (phase, _) = connect_start();
    let (phase, _) = connect_step(phase, ConnectEvent::Opened, policy, fresh());
    let (phase, action) = connect_step(
        phase,
        ConnectEvent::FileRead { bytes: Vec::new() },
        policy,
        fresh(),
    );
    assert_eq!(action, ConnectAction::Launch { launcher: Launcher::External });

    let (phase, action) = connect_step(phase, ConnectEvent::LaunchFailed, policy, fresh());
    assert_eq!(action, ConnectAction::Launch { launcher: Launcher::InProcess });

    let served = Addr { port: 50003 };
    let (phase, action) = connect_step(phase, ConnectEvent::Launched { addr: served }, policy, fresh());
    assert_eq!(action, ConnectAction::Dial { addr: served });
    let (phase, action) = connect_step(phase, ConnectEvent::DialOk, policy, fresh());
    assert_eq!(action, ConnectAction::SendCookie { dispose: true });
    // The fallback worker is in-process, so nothing is registered.
    let (phase, action) = connect_step(phase, ConnectEvent::Sent, policy, fresh());
    assert_eq!(action, ConnectAction::Unlock);
    let (phase, action) = connect_step(phase, ConnectEvent::Unlocked, policy, fresh());
    assert_eq!(action, ConnectAction::Dial { addr: served });
    let (phase, action) = connect_step(phase, ConnectEvent::DialOk, policy, fresh());
    assert_eq!(action, ConnectAction::SendCookie { dispose: false });
    let (phase, action) = connect_step(phase, ConnectEvent::Sent, policy, fresh());
    assert_eq!(action, ConnectAction::Done);
    assert!(matches!(phase, ConnectPhase::Connected { .. }));
}

#[test]
fn both_launchers_failing_surfaces_launch_failed() {
    let policy = Policy::Robust;
    let (phase, _) = connect_start();
    let (phase, _) = connect_step(phase, ConnectEvent::Opened, policy, fresh());
    let (phase, _) = connect_step(
        phase,
        ConnectEvent::FileRead { bytes: Vec::new() },
        policy,
        fresh(),
    );
    let (phase, _) = connect_step(phase, ConnectEvent::LaunchFailed, policy, fresh());
    let (phase, action) = connect_step(phase, ConnectEvent::LaunchFailed, policy, fresh());
    assert_eq!(action, ConnectAction::Fail);
    assert!(matches!(phase, ConnectPhase::Failed { error: ipc::errors::Error::LaunchFailed }));
}

#[test]
fn failed_session_dial_surfaces_io_error() {
    // The lock is gone and the just-started server's address does
    // not answer: the failure surfaces as an input/output error.
    let policy = Policy::InProcess;
    let (phase, _) = connect_start();
    let (phase, _) = connect_step(phase, ConnectEvent::Opened, policy, fresh());
    let (phase, _) = connect_step(phase, ConnectEvent::FileRead { bytes: Vec::new() }, policy, fresh());
    let (phase, _) = connect_step(phase, ConnectEvent::Launched { addr: Addr { port: 50009 } }, policy, fresh());
    let (phase, _) = connect_step(phase, ConnectEvent::DialOk, policy, fresh());
    let (phase, _) = connect_step(phase, ConnectEvent::Sent, policy, fresh());
    let (phase, _) = connect_step(phase, ConnectEvent::Unlocked, policy, fresh());
    let (phase, action) = connect_step(phase, ConnectEvent::DialFailed, policy, fresh());
    assert_eq!(action, ConnectAction::Fail);
    assert!(matches!(phase, ConnectPhase::Failed { error: ipc::errors::Error::Io }));
}

#[test]
fn bootstrap_registers_its_in_process_worker() {
    // Self-start on an empty rendezvous: the worker is launched
    // in-process and, unlike a client's connect, registered in the
    // file.
    let (phase, action) = bootstrap_start();
    assert_eq!(action, ConnectAction::OpenRendezvous);
    let (phase, action) = bootstrap_step(phase, ConnectEvent::Opened, fresh());
    assert_eq!(action, ConnectAction::ReadFile);
    let (phase, action) = bootstrap_step(phase, ConnectEvent::FileRead { bytes: Vec::new() }, fresh());
    assert_eq!(action, ConnectAction::Launch { launcher: Launcher::InProcess });

    let served = Addr { port: 50004 };
    let (phase, action) = bootstrap_step(phase, ConnectEvent::Launched { addr: served }, fresh());
    assert_eq!(action, ConnectAction::WriteRecord);
    let file = match &phase {
        BootstrapPhase::Registering { cookie, addr } => record_to_write(cookie, addr),
        _ => panic!("expected a registering phase"),
    };
    assert_eq!(&file[32..], b"127.0.0.1:50004");

    let (phase, action) = bootstrap_step(phase, ConnectEvent::Wrote, fresh());
    assert_eq!(action, ConnectAction::Unlock);
    let (phase, action) = bootstrap_step(phase, ConnectEvent::Unlocked, fresh());
    assert_eq!(action, ConnectAction::Dial { addr: served });
    let (phase, action) = bootstrap_step(phase, ConnectEvent::DialOk, fresh());
    assert_eq!(action, ConnectAction::SendCookie { dispose: true });
    let (phase, action) = bootstrap_step(phase, ConnectEvent::Sent, fresh());
    assert_eq!(action, ConnectAction::Done);
    assert!(matches!(phase, BootstrapPhase::Running { addr } if addr.port == 50004));

    // A client in the same process now discovers the record.
    let (cphase, _) = connect_start();
    let (cphase, _) = connect_step(cphase, ConnectEvent::Opened, Policy::Robust, fresh());
    let (_, action) = connect_step(cphase, ConnectEvent::FileRead { bytes: file }, Policy::Robust, fresh());
    assert_eq!(action, ConnectAction::Dial { addr: served });
}

#[test]
fn bootstrap_finds_live_server_and_does_nothing() {
    let recorded = Cookie::from(&[3u8; 32]).unwrap();
    let file = record_to_write(&recorded, &Addr { port: 50005 });
    let (phase, _) = bootstrap_start();
    let (phase, _) = bootstrap_step(phase, ConnectEvent::Opened, fresh());
    let (phase, action) = bootstrap_step(phase, ConnectEvent::FileRead { bytes: file }, fresh());
    assert_eq!(action, ConnectAction::Dial { addr: Addr { port: 50005 } });
    let (phase, action) = bootstrap_step(phase, ConnectEvent::DialOk, fresh());
    assert_eq!(action, ConnectAction::SendCookie { dispose: true });
    // The probe sends the *recorded* cookie.
    assert!(matches!(&phase, BootstrapPhase::ProbeSending { cookie, .. } if *cookie == recorded));
    let (phase, action) = bootstrap_step(phase, ConnectEvent::Sent, fresh());
    assert_eq!(action, ConnectAction::Done);
    assert!(matches!(phase, BootstrapPhase::AlreadyRunning));
}

#[test]
fn bootstrap_replaces_dead_record() {
    let recorded = Cookie::from(&[3u8; 32]).unwrap();
    let file = record_to_write(&recorded, &Addr { port: 1 });
    let (phase, _) = bootstrap_start();
    let (phase, _) = bootstrap_step(phase, ConnectEvent::Opened, fresh());
    let (phase, _) = bootstrap_step(phase, ConnectEvent::FileRead { bytes: file }, fresh());
    let (phase, action) = bootstrap_step(phase, ConnectEvent::DialFailed, fresh());
    assert_eq!(action, ConnectAction::Launch { launcher: Launcher::InProcess });
    assert!(matches!(phase, BootstrapPhase::Launching { .. }));
}
