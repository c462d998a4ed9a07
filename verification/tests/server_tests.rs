use ipc::context::{Context, Descriptor, Policy};
use ipc::cookie::Cookie;
use ipc::errors::Error;
use ipc::server::Server;

fn descriptor() -> Descriptor {
    let ctx = Context {
        home: b"/home/user/.service".to_vec(),
        lib: b"/usr/lib/service".to_vec(),
        ephemeral: false,
        policy: Policy::Robust,
    };
    Descriptor::new(ctx, b"/home/user/.service/rendezvous".to_vec(), b"/usr/bin/service-server".to_vec())
}

#[test]
fn fresh_server_accepts_nothing() {
    let server = Server::new(descriptor());
    let c = Cookie::from(&[1u8; 32]).unwrap();
    assert!(!server.accepts(&Ok(c)));
}

#[test]
fn server_accepts_exactly_the_latched_cookie() {
    let mut server = Server::new(descriptor());
    let expected = Cookie::from(&[1u8; 32]).unwrap();
    server.latch(Cookie::from(&[1u8; 32]).unwrap());
    assert!(server.accepts(&Ok(expected)));
}

#[test]
fn wrong_cookie_is_dropped_and_serving_continues() {
    // Two independent servers: a session presenting server A's
    // cookie to server B is dropped, and B keeps accepting.
    let mut server_b = Server::new(descriptor());
    server_b.latch(Cookie::from(&[2u8; 32]).unwrap());

    let cookie_a = Cookie::from(&[1u8; 32]).unwrap();
    assert!(!server_b.accepts(&Ok(cookie_a)));

    // B still accepts its own clients afterwards.
    let cookie_b = Cookie::from(&[2u8; 32]).unwrap();
    assert!(server_b.accepts(&Ok(cookie_b)));
}

#[test]
fn read_errors_are_dropped_like_mismatches() {
    let mut server = Server::new(descriptor());
    server.latch(Cookie::from(&[2u8; 32]).unwrap());
    assert!(!server.accepts(&Err(Error::ConnectionClosed(Vec::new()))));
    assert!(!server.accepts(&Err(Error::Io)));
}

#[test]
fn context_parses_the_documented_command_line() {
    let argv: Vec<Vec<u8>> = vec![
        b"service-server".to_vec(),
        b"--home".to_vec(),
        b"/h".to_vec(),
        b"--lib".to_vec(),
        b"/l".to_vec(),
        b"--ephemeral".to_vec(),
        b"false".to_vec(),
    ];
    let ctx = Server::context(&argv).expect("well-formed command line");
    assert_eq!(ctx.home, b"/h".to_vec());
    assert_eq!(ctx.lib, b"/l".to_vec());
    assert!(!ctx.ephemeral);
}

#[test]
fn context_rejects_a_deviating_command_line() {
    let argv: Vec<Vec<u8>> = vec![
        b"service-server".to_vec(),
        b"--home".to_vec(),
        b"/h".to_vec(),
        b"--lib".to_vec(),
        b"/l".to_vec(),
        b"--ephemeral".to_vec(),
        b"yes".to_vec(),
    ];
    assert!(matches!(Server::context(&argv), Err(Error::UsageError)));
}

#[test]
fn descriptor_getters_return_what_new_took() {
    let d = descriptor();
    assert_eq!(d.rendez_vous(), &b"/home/user/.service/rendezvous".to_vec());
    assert_eq!(d.executable(), &b"/usr/bin/service-server".to_vec());
    assert_eq!(d.context().home, b"/home/user/.service".to_vec());
    assert!(matches!(d.context().policy, Policy::Robust));
}

#[test]
fn error_messages_name_each_kind() {
    assert_eq!(Error::Io.message(), "input/output error");
    assert_eq!(Error::LockUnavailable.message(), "rendezvous lock unavailable");
    assert_eq!(Error::Malformed.message(), "malformed rendezvous record");
    assert_eq!(Error::AddressInvalid.message(), "invalid socket address text");
    assert_eq!(Error::ConnectionClosed(Vec::new()).message(), "connection closed unexpectedly");
    assert_eq!(Error::LaunchFailed.message(), "failed to launch the service");
    assert_eq!(Error::UsageError.message(), "usage error");
}
