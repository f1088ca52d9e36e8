//! Error types: failures raised on the client side, the numeric error codes
//! that the vehicle controller reports, and bridge-local Bluetooth failures.

use vstd::prelude::*;

verus! {

/// A failure on the client side. Each variant carries its detail text.
#[derive(Debug)]
pub enum ClientError {
    Parse(String),
    Run(String),
    Serial(String),
    Unknown(String),
    CSV(String),
    Server(String),
}

/// The mathematical content of a [`ClientError`].
pub enum ClientErrorView {
    Parse(Seq<char>),
    Run(Seq<char>),
    Serial(Seq<char>),
    Unknown(Seq<char>),
    CSV(Seq<char>),
    Server(Seq<char>),
}

impl View for ClientError {
    type V = ClientErrorView;

    open spec fn view(&self) -> ClientErrorView {
        match *self {
            ClientError::Parse(s) => ClientErrorView::Parse(s@),
            ClientError::Run(s) => ClientErrorView::Run(s@),
            ClientError::Serial(s) => ClientErrorView::Serial(s@),
            ClientError::Unknown(s) => ClientErrorView::Unknown(s@),
            ClientError::CSV(s) => ClientErrorView::CSV(s@),
            ClientError::Server(s) => ClientErrorView::Server(s@),
        }
    }
}

/// The message shown for a client error: a fixed prefix per variant, then the
/// detail. A server error is shown as its detail alone.
pub open spec fn client_error_message(e: ClientErrorView) -> Seq<char> {
    match e {
        ClientErrorView::Parse(s) => "There was an error with parsing: "@ + s,
        ClientErrorView::Run(s) => "There was an error with running: "@ + s,
        ClientErrorView::Serial(s) => "There was an error with the serial connection: "@ + s,
        ClientErrorView::Unknown(s) => "An unknown error occurred: "@ + s,
        ClientErrorView::CSV(s) => "Failed handling CSV file: "@ + s,
        ClientErrorView::Server(s) => s,
    }
}

impl ClientError {
    /// The message shown for this error.
    pub fn to_string(&self) -> (r: String)
        ensures
            r@ == client_error_message(self@),
    {
        match self {
            ClientError::Parse(s) => String::from_str("There was an error with parsing: ").concat(
                s.as_str(),
            ),
            ClientError::Run(s) => String::from_str("There was an error with running: ").concat(
                s.as_str(),
            ),
            ClientError::Serial(s) => String::from_str(
                "There was an error with the serial connection: ",
            ).concat(s.as_str()),
            ClientError::Unknown(s) => String::from_str("An unknown error occurred: ").concat(
                s.as_str(),
            ),
            ClientError::CSV(s) => String::from_str("Failed handling CSV file: ").concat(
                s.as_str(),
            ),
            ClientError::Server(s) => {
                let r = String::from_str(s.as_str());
                r
            },
        }
    }
}

/// An error reported by the vehicle controller. The codes fall into three
/// bands (malformed request, malformed response, domain specific) and one
/// catch-all value outside all of them.
#[derive(Clone, Copy, Debug, PartialEq, Eq, Structural)]
pub enum ServerError {
    MalformedRequestFailedPrefixParsing,
    MalformedRequestFailedCommandParsing,
    MalformedRequestFailedSeparatorParsing,
    MalformedRequestFailedArgumentsParsing,
    MalformedRequestFailedMetadataParsing,
    MalformedRequestTypeError,
    MalformedRequestOtherError,
    MalformedResponseTypeError,
    MalformedResponseOtherError,
    FailedToStartAlreadyStarted,
    FailedToStartMagnetOdometerFailed,
    FailedToStartMotorControlFailed,
    FailedToStopNotStarted,
    FailedToStopStartThreadWouldNotRespond,
    FailedStatusCouldNotAcquireDistanceLock,
    FailedPingNegativeLatency,
    AnyOtherError,
}

/// The numeric code of a server error.
pub open spec fn server_error_code(e: ServerError) -> u8 {
    match e {
        ServerError::MalformedRequestFailedPrefixParsing => 0,
        ServerError::MalformedRequestFailedCommandParsing => 1,
        ServerError::MalformedRequestFailedSeparatorParsing => 2,
        ServerError::MalformedRequestFailedArgumentsParsing => 3,
        ServerError::MalformedRequestFailedMetadataParsing => 4,
        ServerError::MalformedRequestTypeError => 5,
        ServerError::MalformedRequestOtherError => 6,
        ServerError::MalformedResponseTypeError => 10,
        ServerError::MalformedResponseOtherError => 11,
        ServerError::FailedToStartAlreadyStarted => 21,
        ServerError::FailedToStartMagnetOdometerFailed => 22,
        ServerError::FailedToStartMotorControlFailed => 23,
        ServerError::FailedToStopNotStarted => 24,
        ServerError::FailedToStopStartThreadWouldNotRespond => 25,
        ServerError::FailedStatusCouldNotAcquireDistanceLock => 26,
        ServerError::FailedPingNegativeLatency => 27,
        ServerError::AnyOtherError => 99,
    }
}

/// True for the codes that name an error: 0 to 6, 10 and 11, 21 to 27, and
/// the catch-all 99.
pub open spec fn is_server_error_code(code: u8) -> bool {
    code <= 6 || code == 10 || code == 11 || (21 <= code && code <= 27) || code == 99
}

/// The server error with the given code, if the code names one.
pub open spec fn server_error_of_code(code: u8) -> Option<ServerError> {
    if code == 0 {
        Some(ServerError::MalformedRequestFailedPrefixParsing)
    } else if code == 1 {
        Some(ServerError::MalformedRequestFailedCommandParsing)
    } else if code == 2 {
        Some(ServerError::MalformedRequestFailedSeparatorParsing)
    } else if code == 3 {
        Some(ServerError::MalformedRequestFailedArgumentsParsing)
    } else if code == 4 {
        Some(ServerError::MalformedRequestFailedMetadataParsing)
    } else if code == 5 {
        Some(ServerError::MalformedRequestTypeError)
    } else if code == 6 {
        Some(ServerError::MalformedRequestOtherError)
    } else if code == 10 {
        Some(ServerError::MalformedResponseTypeError)
    } else if code == 11 {
        Some(ServerError::MalformedResponseOtherError)
    } else if code == 21 {
        Some(ServerError::FailedToStartAlreadyStarted)
    } else if code == 22 {
        Some(ServerError::FailedToStartMagnetOdometerFailed)
    } else if code == 23 {
        Some(ServerError::FailedToStartMotorControlFailed)
    } else if code == 24 {
        Some(ServerError::FailedToStopNotStarted)
    } else if code == 25 {
        Some(ServerError::FailedToStopStartThreadWouldNotRespond)
    } else if code == 26 {
        Some(ServerError::FailedStatusCouldNotAcquireDistanceLock)
    } else if code == 27 {
        Some(ServerError::FailedPingNegativeLatency)
    } else if code == 99 {
        Some(ServerError::AnyOtherError)
    } else {
        None
    }
}

/// The description shown for a server error code.
pub open spec fn server_error_text(code: u8) -> Seq<char> {
    if code == 0 {
        "Malformed request - Failed prefix parsing"@
    } else if code == 1 {
        "Malformed request - Failed command parsing"@
    } else if code == 2 {
        "Malformed request - Failed separator parsing"@
    } else if code == 3 {
        "Malformed request - Failed arguments parsing"@
    } else if code == 4 {
        "Malformed request - Failed metadata parsing"@
    } else if code == 5 {
        "Malformed request - Type error"@
    } else if code == 6 {
        "Malformed request - Other error"@
    } else if code == 10 {
        "Malformed response - Type error"@
    } else if code == 11 {
        "Malformed response - Other error"@
    } else if code == 21 {
        "Failed to start - Already started"@
    } else if code == 22 {
        "Failed to start - Magnet odometer failed"@
    } else if code == 23 {
        "Failed to start - Motor control failed"@
    } else if code == 24 {
        "Failed to start - Could not acquire distance mutex lock"@
    } else if code == 25 {
        "Failed to stop - Not started"@
    } else if code == 26 {
        "Failed to stop - Start thread would not respond"@
    } else if code == 27 {
        "Failed status - Could not acquire distance mutex lock"@
    } else {
        "Any other error"@
    }
}

impl ServerError {
    /// The numeric code of this error.
    pub fn code(self) -> (r: u8)
        ensures
            r == server_error_code(self),
            is_server_error_code(r),
    {
        match self {
            ServerError::MalformedRequestFailedPrefixParsing => 0,
            ServerError::MalformedRequestFailedCommandParsing => 1,
            ServerError::MalformedRequestFailedSeparatorParsing => 2,
            ServerError::MalformedRequestFailedArgumentsParsing => 3,
            ServerError::MalformedRequestFailedMetadataParsing => 4,
            ServerError::MalformedRequestTypeError => 5,
            ServerError::MalformedRequestOtherError => 6,
            ServerError::MalformedResponseTypeError => 10,
            ServerError::MalformedResponseOtherError => 11,
            ServerError::FailedToStartAlreadyStarted => 21,
            ServerError::FailedToStartMagnetOdometerFailed => 22,
            ServerError::FailedToStartMotorControlFailed => 23,
            ServerError::FailedToStopNotStarted => 24,
            ServerError::FailedToStopStartThreadWouldNotRespond => 25,
            ServerError::FailedStatusCouldNotAcquireDistanceLock => 26,
            ServerError::FailedPingNegativeLatency => 27,
            ServerError::AnyOtherError => 99,
        }
    }

    /// Decodes a numeric code. Codes that name no error are rejected.
    pub fn try_from(value: u8) -> (r: Result<ServerError, ()>)
        ensures
            r.is_ok() <==> is_server_error_code(value),
            r matches Ok(e) ==> server_error_of_code(value) == Some(e) && server_error_code(e)
                == value,
            r is Err ==> server_error_of_code(value) is None,
    {
        match value {
            0 => Ok(ServerError::MalformedRequestFailedPrefixParsing),
            1 => Ok(ServerError::MalformedRequestFailedCommandParsing),
            2 => Ok(ServerError::MalformedRequestFailedSeparatorParsing),
            3 => Ok(ServerError::MalformedRequestFailedArgumentsParsing),
            4 => Ok(ServerError::MalformedRequestFailedMetadataParsing),
            5 => Ok(ServerError::MalformedRequestTypeError),
            6 => Ok(ServerError::MalformedRequestOtherError),
            10 => Ok(ServerError::MalformedResponseTypeError),
            11 => Ok(ServerError::MalformedResponseOtherError),
            21 => Ok(ServerError::FailedToStartAlreadyStarted),
            22 => Ok(ServerError::FailedToStartMagnetOdometerFailed),
            23 => Ok(ServerError::FailedToStartMotorControlFailed),
            24 => Ok(ServerError::FailedToStopNotStarted),
            25 => Ok(ServerError::FailedToStopStartThreadWouldNotRespond),
            26 => Ok(ServerError::FailedStatusCouldNotAcquireDistanceLock),
            27 => Ok(ServerError::FailedPingNegativeLatency),
            99 => Ok(ServerError::AnyOtherError),
            _ => Err(()),
        }
    }

    /// Decodes a numeric code, mapping every code that names no error to the
    /// catch-all, so that an unrecognised code never fails the caller.
    pub fn from_code_or_other(value: u8) -> (r: ServerError)
        ensures
            r == match server_error_of_code(value) {
                Some(e) => e,
                None => ServerError::AnyOtherError,
            },
    {
        match ServerError::try_from(value) {
            Ok(e) => e,
            Err(_) => ServerError::AnyOtherError,
        }
    }

    /// The description shown for this error.
    pub fn to_string(&self) -> (r: String)
        ensures
            r@ == server_error_text(server_error_code(*self)),
    {
        let text = match self.code() {
            0 => "Malformed request - Failed prefix parsing",
            1 => "Malformed request - Failed command parsing",
            2 => "Malformed request - Failed separator parsing",
            3 => "Malformed request - Failed arguments parsing",
            4 => "Malformed request - Failed metadata parsing",
            5 => "Malformed request - Type error",
            6 => "Malformed request - Other error",
            10 => "Malformed response - Type error",
            11 => "Malformed response - Other error",
            21 => "Failed to start - Already started",
            22 => "Failed to start - Magnet odometer failed",
            23 => "Failed to start - Motor control failed",
            24 => "Failed to start - Could not acquire distance mutex lock",
            25 => "Failed to stop - Not started",
            26 => "Failed to stop - Start thread would not respond",
            27 => "Failed status - Could not acquire distance mutex lock",
            _ => "Any other error",
        };
        String::from_str(text)
    }
}

/// Decoding the code of an error gives that error back.
pub proof fn lemma_server_error_round_trip(e: ServerError)
    ensures
        server_error_of_code(server_error_code(e)) == Some(e),
        is_server_error_code(server_error_code(e)),
{
}

/// A code decodes to a named error exactly when it lies in one of the three
/// bands or is the catch-all value.
pub proof fn lemma_server_error_bands(code: u8)
    ensures
        server_error_of_code(code) is Some <==> is_server_error_code(code),
        server_error_of_code(code) matches Some(e) ==> server_error_code(e) == code,
        code == 99 ==> server_error_of_code(code) == Some(ServerError::AnyOtherError),
{
}

/// The payload of an error frame: a numeric error code and a message.
#[derive(Debug)]
pub struct ErrorResponse {
    pub error_variant: u8,
    pub message: String,
}

/// The text under which an error frame is reported: the description of its
/// code (or of the catch-all, for a code that names no error), a colon and a
/// space, and the message.
pub open spec fn error_report(error_variant: u8, message: Seq<char>) -> Seq<char> {
    let code = if is_server_error_code(error_variant) {
        error_variant
    } else {
        99u8
    };
    server_error_text(code) + ": "@ + message
}

impl ErrorResponse {
    /// The server error that the code stands for; the catch-all for a code
    /// that names none.
    pub fn server_error(&self) -> (r: ServerError)
        ensures
            r == match server_error_of_code(self.error_variant) {
                Some(e) => e,
                None => ServerError::AnyOtherError,
            },
    {
        ServerError::from_code_or_other(self.error_variant)
    }

    /// The client-side error under which this error frame is reported.
    pub fn to_client_error(&self) -> (r: ClientError)
        ensures
            r@ == ClientErrorView::Server(error_report(self.error_variant, self.message@)),
    {
        let described = self.server_error().to_string();
        let text = described.concat(": ").concat(self.message.as_str());
        assert(text@ == error_report(self.error_variant, self.message@));
        ClientError::Server(text)
    }
}

/// A Bluetooth failure that the bridge detects itself.
#[derive(Clone, Copy, Debug, PartialEq, Eq, Structural)]
pub enum BluetoothError {
    MissingService,
    MissingCharacteristic,
    MissingAdapterEvent,
    NotConnected,
}

/// The message shown for a bridge-local Bluetooth failure.
pub open spec fn bluetooth_error_message(e: BluetoothError) -> Seq<char> {
    match e {
        BluetoothError::MissingService => "The service needed could not be found"@,
        BluetoothError::MissingCharacteristic => "The characteristics needed could not be found"@,
        BluetoothError::MissingAdapterEvent => "Failed to get an adapter event"@,
        BluetoothError::NotConnected => "Not connected"@,
    }
}

impl BluetoothError {
    /// The message shown for this failure.
    pub fn to_string(&self) -> (r: String)
        ensures
            r@ == bluetooth_error_message(*self),
    {
        let text = match self {
            BluetoothError::MissingService => "The service needed could not be found",
            BluetoothError::MissingCharacteristic =>
                "The characteristics needed could not be found",
            BluetoothError::MissingAdapterEvent => "Failed to get an adapter event",
            BluetoothError::NotConnected => "Not connected",
        };
        String::from_str(text)
    }
}

} // verus!
