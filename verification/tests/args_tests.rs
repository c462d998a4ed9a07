use ipc::args::{build_server_args, check_args_round_trip, parse_server_args};
use ipc::context::{Context, Policy};
use ipc::errors::Error;

fn sample_context(ephemeral: bool) -> Context {
    Context {
        home: b"/home/user/.service".to_vec(),
        lib: b"/usr/lib/service".to_vec(),
        ephemeral,
        policy: Policy::Robust,
    }
}

fn argv_for(ctx: &Context) -> Vec<Vec<u8>> {
    let mut argv = vec![b"service-server".to_vec()];
    argv.extend(build_server_args(ctx));
    argv
}

#[test]
fn build_produces_the_documented_form() {
    let built = build_server_args(&sample_context(true));
    assert_eq!(built.len(), 6);
    assert_eq!(built[0], b"--home".to_vec());
    assert_eq!(built[1], b"/home/user/.service".to_vec());
    assert_eq!(built[2], b"--lib".to_vec());
    assert_eq!(built[3], b"/usr/lib/service".to_vec());
    assert_eq!(built[4], b"--ephemeral".to_vec());
    assert_eq!(built[5], b"true".to_vec());
}

#[test]
fn build_writes_false_for_persistent_homes() {
    let built = build_server_args(&sample_context(false));
    assert_eq!(built[5], b"false".to_vec());
}

#[test]
fn parse_accepts_built_command_line() {
    let ctx = sample_context(true);
    let parsed = parse_server_args(&argv_for(&ctx)).expect("built argv parses");
    assert_eq!(parsed.home, ctx.home);
    assert_eq!(parsed.lib, ctx.lib);
    assert_eq!(parsed.ephemeral, true);
    assert!(matches!(parsed.policy, Policy::Robust));
}

#[test]
fn round_trip_law_on_concrete_values() {
    let ctx = sample_context(false);
    let parsed = check_args_round_trip(b"exe".to_vec(), &ctx).expect("round trip is owed");
    assert_eq!(parsed.home, ctx.home);
    assert_eq!(parsed.lib, ctx.lib);
    assert_eq!(parsed.ephemeral, false);
}

#[test]
fn parse_rejects_wrong_argument_count() {
    let mut argv = argv_for(&sample_context(true));
    argv.pop();
    assert!(matches!(parse_server_args(&argv), Err(Error::UsageError)));
    assert!(matches!(parse_server_args(&Vec::new()), Err(Error::UsageError)));
}

#[test]
fn parse_rejects_wrong_markers() {
    let mut argv = argv_for(&sample_context(true));
    argv[1] = b"--hone".to_vec();
    assert!(matches!(parse_server_args(&argv), Err(Error::UsageError)));

    let mut argv = argv_for(&sample_context(true));
    argv[3] = b"--lob".to_vec();
    assert!(matches!(parse_server_args(&argv), Err(Error::UsageError)));

    let mut argv = argv_for(&sample_context(true));
    argv[5] = b"--ephemera".to_vec();
    assert!(matches!(parse_server_args(&argv), Err(Error::UsageError)));
}

#[test]
fn parse_rejects_bad_ephemeral_value() {
    let mut argv = argv_for(&sample_context(true));
    argv[6] = b"maybe".to_vec();
    assert!(matches!(parse_server_args(&argv), Err(Error::UsageError)));
    argv[6] = b"True".to_vec();
    assert!(matches!(parse_server_args(&argv), Err(Error::UsageError)));
}
