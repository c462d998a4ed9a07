use ipc::addr::Addr;

#[test]
fn format_is_canonical_text() {
    let a = Addr { port: 49221 };
    assert_eq!(a.format(), b"127.0.0.1:49221".to_vec());
}

#[test]
fn format_port_zero() {
    let a = Addr { port: 0 };
    assert_eq!(a.format(), b"127.0.0.1:0".to_vec());
}

#[test]
fn format_port_max() {
    let a = Addr { port: 65535 };
    assert_eq!(a.format(), b"127.0.0.1:65535".to_vec());
}

#[test]
fn parse_round_trips_format() {
    for port in [0u16, 1, 9, 10, 99, 100, 1024, 49221, 65535] {
        let a = Addr { port };
        let text = a.format();
        let back = Addr::parse(&text).expect("canonical text parses");
        assert_eq!(back.port, port);
    }
}

#[test]
fn parse_unreachable_port_one() {
    // The text a stale record carries.
    let a = Addr::parse(b"127.0.0.1:1").expect("parses");
    assert_eq!(a.port, 1);
}

#[test]
fn parse_rejects_missing_port() {
    assert!(Addr::parse(b"127.0.0.1:").is_none());
    assert!(Addr::parse(b"127.0.0.1").is_none());
    assert!(Addr::parse(b"").is_none());
}

#[test]
fn parse_rejects_leading_zero() {
    assert!(Addr::parse(b"127.0.0.1:01").is_none());
    assert!(Addr::parse(b"127.0.0.1:00").is_none());
}

#[test]
fn parse_rejects_port_overflow() {
    assert!(Addr::parse(b"127.0.0.1:65536").is_none());
    assert!(Addr::parse(b"127.0.0.1:99999").is_none());
    assert!(Addr::parse(b"127.0.0.1:655350").is_none());
}

#[test]
fn parse_rejects_other_hosts() {
    assert!(Addr::parse(b"10.0.0.1:5").is_none());
    assert!(Addr::parse(b"localhost:5").is_none());
    assert!(Addr::parse(b"127.0.0.2:5").is_none());
}

#[test]
fn parse_rejects_trailing_bytes() {
    assert!(Addr::parse(b"127.0.0.1:1x").is_none());
    assert!(Addr::parse(b"127.0.0.1:1 ").is_none());
    assert!(Addr::parse(b"127.0.0.1:1\n").is_none());
}
