use peernet::cli::{parse_u16, str_eq};
use peernet::{parse_input, input_to_command, Args, InputAction, NetworkCommand};

fn argv(args: &[&str]) -> Vec<String> {
    args.iter().map(|a| a.to_string()).collect()
}

#[test]
fn cli_parses_defaults() {
    let args = Args::parse_from(argv(&["peernet"])).unwrap();
    assert_eq!(args.port, 0);
    assert_eq!(args.verbose, 0);
}

#[test]
fn cli_parses_port() {
    let args = Args::parse_from(argv(&["peernet", "-p", "4001"])).unwrap();
    assert_eq!(args.port, 4001);
}

#[test]
fn cli_parses_long_flags_and_bundles() {
    let args = Args::parse_from(argv(&["peernet", "--port", "9000", "-v"])).unwrap();
    assert_eq!(args.port, 9000);
    assert_eq!(args.verbose, 1);
    let args = Args::parse_from(argv(&["peernet", "-vv", "--verbose"])).unwrap();
    assert_eq!(args.verbose, 3);
}

#[test]
fn cli_rejects_bad_input() {
    assert!(Args::parse_from(argv(&["peernet", "-p"])).is_err());
    assert!(Args::parse_from(argv(&["peernet", "-p", "65536"])).is_err());
    assert!(Args::parse_from(argv(&["peernet", "-p", "40x1"])).is_err());
    assert!(Args::parse_from(argv(&["peernet", "--nope"])).is_err());
}

#[test]
fn parse_u16_exact_values() {
    assert_eq!(parse_u16("4001"), Some(4001));
    assert_eq!(parse_u16("0"), Some(0));
    assert_eq!(parse_u16("65535"), Some(65535));
    assert_eq!(parse_u16("65536"), None);
    assert_eq!(parse_u16(""), None);
    assert_eq!(parse_u16("12a"), None);
}

#[test]
fn str_eq_compares_contents() {
    assert!(str_eq("put", "put"));
    assert!(!str_eq("put", "put "));
    assert!(!str_eq("put", "get"));
}

#[test]
fn input_quit_aliases() {
    assert_eq!(parse_input("quit"), InputAction::Quit);
    assert_eq!(parse_input("exit"), InputAction::Quit);
    assert_eq!(parse_input("q"), InputAction::Quit);
}

#[test]
fn input_help_aliases() {
    assert_eq!(parse_input("help"), InputAction::Help);
    assert_eq!(parse_input("?"), InputAction::Help);
}

#[test]
fn input_send_takes_rest_of_line() {
    match parse_input("send hello world") {
        InputAction::Send { payload } => assert_eq!(payload.as_bytes(), b"hello world"),
        other => panic!("expected send, got {other:?}"),
    }
    match parse_input("s hi") {
        InputAction::Send { payload } => assert_eq!(payload.as_bytes(), b"hi"),
        other => panic!("expected send, got {other:?}"),
    }
    assert_eq!(parse_input("send"), InputAction::SendUsage);
}

#[test]
fn input_put_splits_key_and_value() {
    match parse_input("put greeting hello there") {
        InputAction::Put { key, value } => {
            assert_eq!(key.as_str(), "greeting");
            assert_eq!(value.as_bytes(), b"hello there");
        }
        other => panic!("expected put, got {other:?}"),
    }
    assert_eq!(parse_input("put"), InputAction::PutUsage);
    assert_eq!(parse_input("put onlykey"), InputAction::PutUsage);
}

#[test]
fn input_get_takes_key() {
    match parse_input("get shared") {
        InputAction::Get { key } => assert_eq!(key.as_str(), "shared"),
        other => panic!("expected get, got {other:?}"),
    }
    assert_eq!(parse_input("get"), InputAction::GetUsage);
}

#[test]
fn input_unknown_command_is_reported() {
    match parse_input("frobnicate now") {
        InputAction::Unknown { command } => assert_eq!(command, "frobnicate"),
        other => panic!("expected unknown, got {other:?}"),
    }
}

#[test]
fn input_rejects_invalid_values() {
    match parse_input("put  value-after-double-space") {
        InputAction::Rejected { .. } => {}
        other => panic!("expected rejection of empty key, got {other:?}"),
    }
}

#[test]
fn input_to_command_routes_requests() {
    let cmd = input_to_command(parse_input("send hello")).unwrap();
    match cmd {
        NetworkCommand::Publish { topic, payload } => {
            assert_eq!(topic.as_str(), "peernet-global");
            assert_eq!(payload.as_bytes(), b"hello");
        }
        other => panic!("expected publish, got {other:?}"),
    }
    match input_to_command(parse_input("put k v")).unwrap() {
        NetworkCommand::PutRecord { key, value } => {
            assert_eq!(key.as_str(), "k");
            assert_eq!(value.as_bytes(), b"v");
        }
        other => panic!("expected put, got {other:?}"),
    }
    match input_to_command(parse_input("get k")).unwrap() {
        NetworkCommand::GetRecord { key } => assert_eq!(key.as_str(), "k"),
        other => panic!("expected get, got {other:?}"),
    }
    assert_eq!(input_to_command(InputAction::Help), None);
    assert_eq!(input_to_command(InputAction::Quit), None);
}
