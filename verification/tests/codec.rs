use car_protocol::command::{Command, TransitMode, TransitType};
use car_protocol::error::ClientError;
use car_protocol::frame::{decode, encode, Frame};

fn parse_detail(result: Result<Frame, ClientError>) -> String {
    match result {
        Err(ClientError::Parse(detail)) => detail,
        Err(other) => panic!("expected a parse error, got {:?}", other),
        Ok(frame) => panic!("expected a parse error, got {:?}", frame),
    }
}

#[test]
fn encodes_ping_request() {
    let time = serde_json::to_string(&1000.0_f64).unwrap();
    let payload = format!("{{\"time\":{}}}", time);
    let frame = Frame::request(Command::Ping, payload, "{\"time\":1677000000.25}".to_string());
    assert_eq!(
        encode(&frame),
        "?PING${\"time\":1000.0}${\"time\":1677000000.25}\n"
    );
}

#[test]
fn decodes_ping_request() {
    let frame = decode("?PING${\"time\":1000.0}${\"time\":1677000000.25}\n").unwrap();
    assert_eq!(frame.command, Command::Ping);
    assert_eq!(frame.transit_mode, TransitMode::ClientToServerRequest);
    assert_eq!(frame.transit_type(), TransitType::Request);
    assert_eq!(frame.payload, "{\"time\":1000.0}");
    assert_eq!(frame.metadata, "{\"time\":1677000000.25}");
    let payload: serde_json::Value = serde_json::from_str(&frame.payload).unwrap();
    assert_eq!(payload["time"].as_f64(), Some(1000.0));
}

#[test]
fn decodes_without_terminator() {
    let frame = decode("~STATUS${\"running\":true}${\"time\":2.0}").unwrap();
    assert_eq!(frame.command, Command::Status);
    assert_eq!(frame.transit_mode, TransitMode::ServerToClientResponse);
    assert_eq!(frame.transit_type(), TransitType::Response);
    assert_eq!(frame.payload, "{\"running\":true}");
    assert_eq!(frame.metadata, "{\"time\":2.0}");
}

#[test]
fn decodes_carriage_return_terminator() {
    let frame = decode("&BLUETOOTHSTATUS${\"connected\": true}${\"time\":3}\r").unwrap();
    assert_eq!(frame.command, Command::BluetoothStatus);
    assert_eq!(frame.transit_mode, TransitMode::SerialBridgeToClientResponse);
    assert_eq!(frame.metadata, "{\"time\":3}");
}

#[test]
fn strips_only_one_terminator() {
    let frame = decode("~STOP${}${\"time\":3}\r\n").unwrap();
    assert_eq!(frame.metadata, "{\"time\":3}\r");
}

#[test]
fn empty_payload_sentinel_becomes_null() {
    let frame = decode("~START${}${\"time\":1.0}\n").unwrap();
    assert_eq!(frame.command, Command::Start);
    assert_eq!(frame.payload, "null");
}

#[test]
fn null_payload_is_written_as_sentinel() {
    let frame = Frame::request(Command::Stop, "null".to_string(), "{\"time\":1.0}".to_string());
    assert_eq!(encode(&frame), "?STOP${}${\"time\":1.0}\n");
}

#[test]
fn bridge_commands_are_marked_for_the_bridge() {
    let frame = Frame::request(Command::Connect, "null".to_string(), "{}".to_string());
    assert_eq!(frame.transit_mode, TransitMode::ClientToSerialBridgeRequest);
    assert_eq!(encode(&frame), "^CONNECT${}${}\n");
}

#[test]
fn round_trip_keeps_every_field() {
    let commands = [
        Command::Ping,
        Command::Start,
        Command::Stop,
        Command::StaticStatus,
        Command::Status,
        Command::Error,
        Command::Connect,
        Command::Disconnect,
        Command::BluetoothStatus,
    ];
    let modes = [
        TransitMode::ClientToServerRequest,
        TransitMode::ServerToClientResponse,
        TransitMode::ClientToSerialBridgeRequest,
        TransitMode::SerialBridgeToClientResponse,
    ];
    for command in commands {
        for transit_mode in modes {
            let frame = Frame {
                transit_mode,
                command,
                payload: "{\"distance\":12.5,\"reverse_brake\":false}".to_string(),
                metadata: "{\"time\":99.5}".to_string(),
            };
            assert!(frame.is_valid());
            let back = decode(&encode(&frame)).unwrap();
            assert_eq!(back.transit_mode, transit_mode);
            assert_eq!(back.command, command);
            assert_eq!(back.payload, frame.payload);
            assert_eq!(back.metadata, frame.metadata);
        }
    }
}

#[test]
fn round_trip_of_absent_and_empty_object_payload() {
    let absent = Frame::request(Command::Status, "null".to_string(), "{\"time\":1}".to_string());
    assert_eq!(decode(&encode(&absent)).unwrap().payload, "null");
    let empty_object = Frame::request(Command::Status, "{}".to_string(), "{\"time\":1}".to_string());
    assert_eq!(decode(&encode(&empty_object)).unwrap().payload, "null");
}

#[test]
fn frame_with_separator_in_a_field_is_not_valid() {
    let frame = Frame::request(Command::Ping, "{\"note\":\"$\"}".to_string(), "{}".to_string());
    assert!(!frame.is_valid());
    assert!(decode(&encode(&frame)).is_err());
    let frame = Frame::request(Command::Ping, "{}".to_string(), "$".to_string());
    assert!(!frame.is_valid());
}

#[test]
fn rejects_short_input() {
    for line in ["", "?", "?PIN", "~$$\n", "?P$$"] {
        assert_eq!(parse_detail(decode(line)), "Too short to be a valid response");
    }
}

#[test]
fn rejects_wrong_number_of_separators() {
    for line in ["?PING", "?PING${}", "?PING${}$", "?PING$a$b$c", "?PING$$$$", "?PING{}{}\n"] {
        let result = decode(line);
        if line == "?PING${}$" {
            assert!(result.is_ok());
        } else {
            assert_eq!(parse_detail(result), "Expected exactly two separators");
        }
    }
}

#[test]
fn rejects_unknown_command() {
    assert_eq!(
        parse_detail(decode("?LAUNCH${}${}\n")),
        "Failed to parse command from LAUNCH"
    );
    assert_eq!(parse_detail(decode("?${}${}\n")), "Failed to parse command from ");
    assert_eq!(
        parse_detail(decode("?pings${}${}\n")),
        "Failed to parse command from pings"
    );
}

#[test]
fn unknown_command_is_reported_whatever_the_marker() {
    assert_eq!(
        parse_detail(decode("XNOPE${}${\"time\":1.0}")),
        "Failed to parse command from NOPE"
    );
    assert_eq!(
        parse_detail(decode("~NOPE${}${\"time\":1.0}")),
        "Failed to parse command from NOPE"
    );
    assert_eq!(parse_detail(decode("X${}${}\n")), "Failed to parse command from ");
    assert_eq!(
        parse_detail(decode("XPING${}${\"time\":1.0}")),
        "Failed to parse transit mode from X"
    );
}

#[test]
fn unknown_token_is_the_error_command() {
    let frame = decode("~UNKNOWN${\"error_variant\":1,\"message\":\"m\"}${\"time\":1}\n").unwrap();
    assert_eq!(frame.command, Command::Error);
    let frame = decode("~ERROR${\"error_variant\":1,\"message\":\"m\"}${\"time\":1}\n").unwrap();
    assert_eq!(frame.command, Command::Error);
}

#[test]
fn command_token_is_case_insensitive() {
    assert_eq!(decode("?ping${}${}\n").unwrap().command, Command::Ping);
    assert_eq!(decode("?StaticStatus${}${}\n").unwrap().command, Command::StaticStatus);
    assert_eq!(decode("?unknown${}${}\n").unwrap().command, Command::Error);
}

#[test]
fn rejects_missing_or_unknown_marker() {
    assert_eq!(parse_detail(decode("$PING${}\n")), "Missing transit mode marker");
    assert_eq!(
        parse_detail(decode("!PING${}${}\n")),
        "Failed to parse transit mode from !"
    );
}

#[test]
fn parse_error_is_shown_with_its_prefix() {
    let error = decode("?LAUNCH${}${}\n").unwrap_err();
    assert_eq!(
        error.to_string(),
        "There was an error with parsing: Failed to parse command from LAUNCH"
    );
}
