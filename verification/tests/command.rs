use car_protocol::command::{ArgumentKind, Command, TransitMode, TransitType};
use car_protocol::error::ClientError;
use car_protocol::text::{bytes_to_string, from_chars, to_ascii_upper, to_chars};

const ALL: [Command; 9] = [
    Command::Ping,
    Command::Start,
    Command::Stop,
    Command::StaticStatus,
    Command::Status,
    Command::Error,
    Command::Connect,
    Command::Disconnect,
    Command::BluetoothStatus,
];

fn lookup(token: &str) -> Option<Command> {
    Command::try_from(token.to_string()).ok()
}

#[test]
fn command_names() {
    let names = [
        "PING",
        "START",
        "STOP",
        "STATICSTATUS",
        "STATUS",
        "ERROR",
        "CONNECT",
        "DISCONNECT",
        "BLUETOOTHSTATUS",
    ];
    for (command, name) in ALL.iter().zip(names) {
        assert_eq!(command.name(), name);
        assert_eq!(command.to_string(), name);
    }
}

#[test]
fn every_name_parses_back() {
    for command in ALL {
        assert_eq!(lookup(command.name()), Some(command));
        assert_eq!(lookup(&command.name().to_lowercase()), Some(command));
    }
}

#[test]
fn lookup_rejects_other_text() {
    for token in ["", "PIN", "PINGS", " PING", "STATUS ", "BLUETOOTH", "ERR", "UNKNOWN!"] {
        assert_eq!(lookup(token), None);
    }
}

#[test]
fn transit_mode_of_commands() {
    for command in [
        Command::Ping,
        Command::Start,
        Command::Stop,
        Command::StaticStatus,
        Command::Status,
        Command::Error,
    ] {
        assert_eq!(command.transit_mode(), TransitMode::ClientToServerRequest);
    }
    for command in [Command::Connect, Command::Disconnect, Command::BluetoothStatus] {
        assert_eq!(command.transit_mode(), TransitMode::ClientToSerialBridgeRequest);
    }
}

#[test]
fn markers() {
    let pairs = [
        (TransitMode::ClientToServerRequest, '?', TransitType::Request),
        (TransitMode::ServerToClientResponse, '~', TransitType::Response),
        (TransitMode::ClientToSerialBridgeRequest, '^', TransitType::Request),
        (TransitMode::SerialBridgeToClientResponse, '&', TransitType::Response),
    ];
    for (mode, marker, transit_type) in pairs {
        assert_eq!(mode.marker(), marker);
        assert_eq!(TransitMode::from_marker(marker), Some(mode));
        assert_eq!(mode.transit_type(), transit_type);
    }
    for other in ['$', 'P', ' ', '\n', '!'] {
        assert_eq!(TransitMode::from_marker(other), None);
    }
}

#[test]
fn upper_casing() {
    assert_eq!(to_ascii_upper('a'), 'A');
    assert_eq!(to_ascii_upper('z'), 'Z');
    assert_eq!(to_ascii_upper('A'), 'A');
    assert_eq!(to_ascii_upper('`'), '`');
    assert_eq!(to_ascii_upper('{'), '{');
    assert_eq!(to_ascii_upper('é'), 'é');
    for code in 0..0x250_u32 {
        if let Some(c) = char::from_u32(code) {
            assert_eq!(to_ascii_upper(c), c.to_ascii_uppercase());
        }
    }
}

#[test]
fn characters_in_and_out() {
    let chars = to_chars("a$é\n");
    assert_eq!(chars, vec!['a', '$', 'é', '\n']);
    assert_eq!(from_chars(&chars), "a$é\n");
    assert_eq!(from_chars(&chars[1..3]), "$é");
    assert_eq!(from_chars(&[]), "");
    assert!(to_chars("").is_empty());
}

#[test]
fn bytes_read_as_text() {
    let bytes = [b'o', b'k', 0xE9, 0x0A, 0xFF];
    assert_eq!(bytes_to_string(&bytes), "ok\u{e9}\n\u{ff}");
    assert_eq!(bytes_to_string(&bytes[1..3]), "k\u{e9}");
    assert_eq!(bytes_to_string(&[]), "");
}

#[test]
fn command_from_text() {
    for command in ALL {
        assert_eq!(Command::try_from(command.name().to_string()).ok(), Some(command));
    }
    assert_eq!(Command::try_from("Ping".to_string()).ok(), Some(Command::Ping));
    assert_eq!(Command::try_from("unknown".to_string()).ok(), Some(Command::Error));
    assert_eq!(Command::try_from("UNKNOWN".to_string()).ok(), Some(Command::Error));
    match Command::try_from("Launch".to_string()) {
        Err(ClientError::Parse(detail)) => assert_eq!(detail, "Failed to parse command from Launch"),
        other => panic!("expected a parse error, got {:?}", other),
    }
    match Command::try_from(String::new()) {
        Err(ClientError::Parse(detail)) => assert_eq!(detail, "Failed to parse command from "),
        other => panic!("expected a parse error, got {:?}", other),
    }
}

#[test]
fn transit_mode_from_command() {
    for command in ALL {
        assert_eq!(TransitMode::from(command), command.transit_mode());
    }
    assert_eq!(TransitMode::from(Command::Ping), TransitMode::ClientToServerRequest);
    assert_eq!(TransitMode::from(Command::Connect), TransitMode::ClientToSerialBridgeRequest);
}

#[test]
fn argument_kinds() {
    for command in ALL {
        let expected = match command {
            Command::Ping => ArgumentKind::Ping,
            Command::Start => ArgumentKind::Start,
            _ => ArgumentKind::Empty,
        };
        assert_eq!(command.argument_kind(), expected);
    }
}
