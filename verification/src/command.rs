//! The command registry: the closed set of commands, their wire names, and
//! the transit mode each one travels in.

use crate::error::{ClientError, ClientErrorView};
use crate::text::{
    ascii_upper_seq, eq_ignore_ascii_case, has_no_ascii_lower, lemma_upper_of_upper, to_chars,
};
use vstd::prelude::*;

verus! {

/// A command understood by the vehicle controller or by the bridge.
#[derive(Clone, Copy, Debug, PartialEq, Eq, Structural)]
pub enum Command {
    Ping,
    Start,
    Stop,
    StaticStatus,
    Status,
    Error,
    Connect,
    Disconnect,
    BluetoothStatus,
}

/// Direction and addressee of a frame, written as its first character.
#[derive(Clone, Copy, Debug, PartialEq, Eq, Structural)]
pub enum TransitMode {
    ClientToServerRequest,
    ServerToClientResponse,
    ClientToSerialBridgeRequest,
    SerialBridgeToClientResponse,
}

/// Whether a frame asks or answers.
#[derive(Clone, Copy, Debug, PartialEq, Eq, Structural)]
pub enum TransitType {
    Request,
    Response,
}

/// What a request for a command carries.
#[derive(Clone, Copy, Debug, PartialEq, Eq, Structural)]
pub enum ArgumentKind {
    /// Nothing: the payload is absent.
    Empty,
    /// The time at which the ping was sent.
    Ping,
    /// The distance to travel, and whether to brake by reversing.
    Start,
}

/// The arguments that a request for a command carries.
pub open spec fn argument_kind(command: Command) -> ArgumentKind {
    match command {
        Command::Ping => ArgumentKind::Ping,
        Command::Start => ArgumentKind::Start,
        _ => ArgumentKind::Empty,
    }
}

/// The wire name of a command.
pub open spec fn command_name(command: Command) -> Seq<char> {
    match command {
        Command::Ping => "PING"@,
        Command::Start => "START"@,
        Command::Stop => "STOP"@,
        Command::StaticStatus => "STATICSTATUS"@,
        Command::Status => "STATUS"@,
        Command::Error => "ERROR"@,
        Command::Connect => "CONNECT"@,
        Command::Disconnect => "DISCONNECT"@,
        Command::BluetoothStatus => "BLUETOOTHSTATUS"@,
    }
}

/// The command that a token names, compared without regard to ASCII case.
/// `UNKNOWN` is accepted as another name of `Error`.
pub open spec fn parse_command(token: Seq<char>) -> Option<Command> {
    let t = ascii_upper_seq(token);
    if t == "PING"@ {
        Some(Command::Ping)
    } else if t == "START"@ {
        Some(Command::Start)
    } else if t == "STOP"@ {
        Some(Command::Stop)
    } else if t == "STATICSTATUS"@ {
        Some(Command::StaticStatus)
    } else if t == "STATUS"@ {
        Some(Command::Status)
    } else if t == "UNKNOWN"@ || t == "ERROR"@ {
        Some(Command::Error)
    } else if t == "CONNECT"@ {
        Some(Command::Connect)
    } else if t == "DISCONNECT"@ {
        Some(Command::Disconnect)
    } else if t == "BLUETOOTHSTATUS"@ {
        Some(Command::BluetoothStatus)
    } else {
        None
    }
}

/// The transit mode in which a command is requested: vehicle commands go
/// from client to server, bridge commands from client to bridge.
pub open spec fn request_mode(command: Command) -> TransitMode {
    match command {
        Command::Connect | Command::Disconnect | Command::BluetoothStatus =>
            TransitMode::ClientToSerialBridgeRequest,
        _ => TransitMode::ClientToServerRequest,
    }
}

/// The character that marks a transit mode on the wire.
pub open spec fn marker_of(mode: TransitMode) -> char {
    match mode {
        TransitMode::ClientToServerRequest => '?',
        TransitMode::ServerToClientResponse => '~',
        TransitMode::ClientToSerialBridgeRequest => '^',
        TransitMode::SerialBridgeToClientResponse => '&',
    }
}

/// The transit mode that a marker character stands for, if any.
pub open spec fn mode_of_marker(marker: char) -> Option<TransitMode> {
    if marker == '?' {
        Some(TransitMode::ClientToServerRequest)
    } else if marker == '~' {
        Some(TransitMode::ServerToClientResponse)
    } else if marker == '^' {
        Some(TransitMode::ClientToSerialBridgeRequest)
    } else if marker == '&' {
        Some(TransitMode::SerialBridgeToClientResponse)
    } else {
        None
    }
}

/// Requests are `?` and `^`; responses are `~` and `&`.
pub open spec fn type_of_mode(mode: TransitMode) -> TransitType {
    match mode {
        TransitMode::ClientToServerRequest | TransitMode::ClientToSerialBridgeRequest =>
            TransitType::Request,
        _ => TransitType::Response,
    }
}

/// Reveals the characters of every command name.
pub proof fn lemma_command_names()
    ensures
        "PING"@ == seq!['P', 'I', 'N', 'G'],
        "START"@ == seq!['S', 'T', 'A', 'R', 'T'],
        "STOP"@ == seq!['S', 'T', 'O', 'P'],
        "STATICSTATUS"@ == seq!['S', 'T', 'A', 'T', 'I', 'C', 'S', 'T', 'A', 'T', 'U', 'S'],
        "STATUS"@ == seq!['S', 'T', 'A', 'T', 'U', 'S'],
        "ERROR"@ == seq!['E', 'R', 'R', 'O', 'R'],
        "UNKNOWN"@ == seq!['U', 'N', 'K', 'N', 'O', 'W', 'N'],
        "CONNECT"@ == seq!['C', 'O', 'N', 'N', 'E', 'C', 'T'],
        "DISCONNECT"@ == seq!['D', 'I', 'S', 'C', 'O', 'N', 'N', 'E', 'C', 'T'],
        "BLUETOOTHSTATUS"@ == seq![
            'B', 'L', 'U', 'E', 'T', 'O', 'O', 'T', 'H', 'S', 'T', 'A', 'T', 'U', 'S',
        ],
{
    reveal_strlit("PING");
    reveal_strlit("START");
    reveal_strlit("STOP");
    reveal_strlit("STATICSTATUS");
    reveal_strlit("STATUS");
    reveal_strlit("ERROR");
    reveal_strlit("UNKNOWN");
    reveal_strlit("CONNECT");
    reveal_strlit("DISCONNECT");
    reveal_strlit("BLUETOOTHSTATUS");
    assert("PING"@ =~= seq!['P', 'I', 'N', 'G']);
    assert("START"@ =~= seq!['S', 'T', 'A', 'R', 'T']);
    assert("STOP"@ =~= seq!['S', 'T', 'O', 'P']);
    assert("STATICSTATUS"@ =~= seq![
        'S', 'T', 'A', 'T', 'I', 'C', 'S', 'T', 'A', 'T', 'U', 'S',
    ]);
    assert("STATUS"@ =~= seq!['S', 'T', 'A', 'T', 'U', 'S']);
    assert("ERROR"@ =~= seq!['E', 'R', 'R', 'O', 'R']);
    assert("UNKNOWN"@ =~= seq!['U', 'N', 'K', 'N', 'O', 'W', 'N']);
    assert("CONNECT"@ =~= seq!['C', 'O', 'N', 'N', 'E', 'C', 'T']);
    assert("DISCONNECT"@ =~= seq!['D', 'I', 'S', 'C', 'O', 'N', 'N', 'E', 'C', 'T']);
    assert("BLUETOOTHSTATUS"@ =~= seq![
        'B', 'L', 'U', 'E', 'T', 'O', 'O', 'T', 'H', 'S', 'T', 'A', 'T', 'U', 'S',
    ]);
}

/// Every command's wire name parses back to that command, and no wire name
/// holds a field separator or a line terminator.
pub proof fn lemma_name_round_trip(command: Command)
    ensures
        parse_command(command_name(command)) == Some(command),
        command_name(command).len() >= 4,
        forall|i: int|
            0 <= i < command_name(command).len() ==> {
                let c = #[trigger] command_name(command)[i];
                c != '$' && c != '\n' && c != '\r'
            },
{
    lemma_command_names();
    let name = command_name(command);
    assert(has_no_ascii_lower(name));
    lemma_upper_of_upper(name);
}

impl Command {
    /// The wire name of the command.
    pub fn name(self) -> (r: &'static str)
        ensures
            r@ == command_name(self),
    {
        match self {
            Command::Ping => "PING",
            Command::Start => "START",
            Command::Stop => "STOP",
            Command::StaticStatus => "STATICSTATUS",
            Command::Status => "STATUS",
            Command::Error => "ERROR",
            Command::Connect => "CONNECT",
            Command::Disconnect => "DISCONNECT",
            Command::BluetoothStatus => "BLUETOOTHSTATUS",
        }
    }

    /// The wire name of the command as an owned string.
    pub fn to_string(&self) -> (r: String)
        ensures
            r@ == command_name(*self),
    {
        String::from_str(self.name())
    }

    /// Reads a command from its name, ignoring ASCII case. Text that names
    /// no command fails with a parse error that carries the text.
    pub fn try_from(value: String) -> (r: Result<Command, ClientError>)
        ensures
            match parse_command(value@) {
                Some(command) => r matches Ok(got) && got == command,
                None => r matches Err(e) && e@ == ClientErrorView::Parse(
                    "Failed to parse command from "@ + value@,
                ),
            },
    {
        let chars = to_chars(value.as_str());
        assert(chars@.subrange(0, chars@.len() as int) =~= value@);
        match Command::lookup(chars.as_slice(), 0, chars.len()) {
            Some(command) => Ok(command),
            None => Err(
                ClientError::Parse(
                    String::from_str("Failed to parse command from ").concat(value.as_str()),
                ),
            ),
        }
    }

    /// The arguments that a request for this command carries.
    pub fn argument_kind(self) -> (r: ArgumentKind)
        ensures
            r == argument_kind(self),
    {
        match self {
            Command::Ping => ArgumentKind::Ping,
            Command::Start => ArgumentKind::Start,
            _ => ArgumentKind::Empty,
        }
    }

    /// Looks up the command named by `chars[from..to]`, ignoring ASCII case.
    pub(crate) fn lookup(chars: &[char], from: usize, to: usize) -> (r: Option<Command>)
        requires
            from <= to <= chars@.len(),
        ensures
            r == parse_command(chars@.subrange(from as int, to as int)),
    {
        if eq_ignore_ascii_case(chars, from, to, "PING") {
            Some(Command::Ping)
        } else if eq_ignore_ascii_case(chars, from, to, "START") {
            Some(Command::Start)
        } else if eq_ignore_ascii_case(chars, from, to, "STOP") {
            Some(Command::Stop)
        } else if eq_ignore_ascii_case(chars, from, to, "STATICSTATUS") {
            Some(Command::StaticStatus)
        } else if eq_ignore_ascii_case(chars, from, to, "STATUS") {
            Some(Command::Status)
        } else if eq_ignore_ascii_case(chars, from, to, "UNKNOWN") || eq_ignore_ascii_case(
            chars,
            from,
            to,
            "ERROR",
        ) {
            Some(Command::Error)
        } else if eq_ignore_ascii_case(chars, from, to, "CONNECT") {
            Some(Command::Connect)
        } else if eq_ignore_ascii_case(chars, from, to, "DISCONNECT") {
            Some(Command::Disconnect)
        } else if eq_ignore_ascii_case(chars, from, to, "BLUETOOTHSTATUS") {
            Some(Command::BluetoothStatus)
        } else {
            None
        }
    }

    /// The transit mode in which this command is requested.
    pub fn transit_mode(self) -> (r: TransitMode)
        ensures
            r == request_mode(self),
    {
        match self {
            Command::Connect | Command::Disconnect | Command::BluetoothStatus =>
                TransitMode::ClientToSerialBridgeRequest,
            _ => TransitMode::ClientToServerRequest,
        }
    }
}

impl From<Command> for TransitMode {
    /// The transit mode in which a command is requested.
    fn from(value: Command) -> (r: TransitMode) {
        value.transit_mode()
    }
}

impl vstd::std_specs::convert::FromSpecImpl<Command> for TransitMode {
    open spec fn obeys_from_spec() -> bool {
        true
    }

    open spec fn from_spec(value: Command) -> TransitMode {
        request_mode(value)
    }
}

impl TransitMode {
    /// The marker character of this mode.
    pub fn marker(self) -> (r: char)
        ensures
            r == marker_of(self),
    {
        match self {
            TransitMode::ClientToServerRequest => '?',
            TransitMode::ServerToClientResponse => '~',
            TransitMode::ClientToSerialBridgeRequest => '^',
            TransitMode::SerialBridgeToClientResponse => '&',
        }
    }

    /// The mode that `marker` stands for, or `None` for any other character.
    pub fn from_marker(marker: char) -> (r: Option<TransitMode>)
        ensures
            r == mode_of_marker(marker),
    {
        if marker == '?' {
            Some(TransitMode::ClientToServerRequest)
        } else if marker == '~' {
            Some(TransitMode::ServerToClientResponse)
        } else if marker == '^' {
            Some(TransitMode::ClientToSerialBridgeRequest)
        } else if marker == '&' {
            Some(TransitMode::SerialBridgeToClientResponse)
        } else {
            None
        }
    }

    /// Whether frames in this mode are requests or responses.
    pub fn transit_type(self) -> (r: TransitType)
        ensures
            r == type_of_mode(self),
    {
        match self {
            TransitMode::ClientToServerRequest | TransitMode::ClientToSerialBridgeRequest =>
                TransitType::Request,
            _ => TransitType::Response,
        }
    }
}

/// A marker names the mode it was taken from, and distinct modes have
/// distinct markers.
pub proof fn lemma_marker_round_trip(mode: TransitMode)
    ensures
        mode_of_marker(marker_of(mode)) == Some(mode),
        marker_of(mode) != '$',
{
}

} // verus!
