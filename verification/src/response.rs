//! The response correlator: which typed response a decoded frame stands for,
//! and the event that wraps the typed value once the caller has read it.

use crate::command::{
    argument_kind, command_name, type_of_mode, ArgumentKind, Command, TransitMode, TransitType,
};
use crate::error::{ClientError, ClientErrorView};
use crate::frame::Frame;
use vstd::prelude::*;

verus! {

/// The variants of the tagged union of responses.
#[derive(Clone, Copy, Debug, PartialEq, Eq, Structural)]
pub enum ResponseKind {
    Ping,
    Start,
    Stop,
    Status,
    StaticStatus,
    Error,
    BluetoothStatus,
}

/// The response that answers a command. `CONNECT` and `DISCONNECT` have no
/// response that a client can act on.
pub open spec fn response_kind(command: Command) -> Option<ResponseKind> {
    match command {
        Command::Ping => Some(ResponseKind::Ping),
        Command::Start => Some(ResponseKind::Start),
        Command::Stop => Some(ResponseKind::Stop),
        Command::Status => Some(ResponseKind::Status),
        Command::StaticStatus => Some(ResponseKind::StaticStatus),
        Command::Error => Some(ResponseKind::Error),
        Command::BluetoothStatus => Some(ResponseKind::BluetoothStatus),
        Command::Connect | Command::Disconnect => None,
    }
}

/// The detail text of the error raised for a command without a response.
pub open spec fn no_response_message(command: Command) -> Seq<char> {
    "No response is defined for "@ + command_name(command)
}

/// Dispatches on the command of a decoded frame.
///
/// Returns the variant under which the payload is to be read, or an
/// `Unknown` error for a command that has none.
pub fn correlate(frame: &Frame) -> (r: Result<ResponseKind, ClientError>)
    ensures
        match response_kind(frame.command) {
            Some(kind) => r == Ok::<ResponseKind, ClientError>(kind),
            None => r matches Err(e) && e@ == ClientErrorView::Unknown(
                no_response_message(frame.command),
            ),
        },
{
    match frame.command {
        Command::Ping => Ok(ResponseKind::Ping),
        Command::Start => Ok(ResponseKind::Start),
        Command::Stop => Ok(ResponseKind::Stop),
        Command::Status => Ok(ResponseKind::Status),
        Command::StaticStatus => Ok(ResponseKind::StaticStatus),
        Command::Error => Ok(ResponseKind::Error),
        Command::BluetoothStatus => Ok(ResponseKind::BluetoothStatus),
        Command::Connect | Command::Disconnect => Err(
            ClientError::Unknown(
                String::from_str("No response is defined for ").concat(frame.command.name()),
            ),
        ),
    }
}

/// What the payload of a frame is to be read as.
#[derive(Clone, Copy, Debug, PartialEq, Eq, Structural)]
pub enum PayloadKind {
    /// The arguments of a request.
    Arguments(ArgumentKind),
    /// A response.
    Response(ResponseKind),
}

/// How the payload of a frame is read: a request carries the arguments of
/// its command, a response carries the response to its command. A response
/// to `CONNECT` or `DISCONNECT` has no reading.
pub open spec fn payload_kind(transit_mode: TransitMode, command: Command) -> Option<PayloadKind> {
    match type_of_mode(transit_mode) {
        TransitType::Request => Some(PayloadKind::Arguments(argument_kind(command))),
        TransitType::Response => match response_kind(command) {
            Some(kind) => Some(PayloadKind::Response(kind)),
            None => None,
        },
    }
}

/// Dispatches on the transit type and the command of a decoded frame.
///
/// Returns what the payload is to be read as, or an `Unknown` error for a
/// response to a command that has none.
pub fn classify(frame: &Frame) -> (r: Result<PayloadKind, ClientError>)
    ensures
        match payload_kind(frame.transit_mode, frame.command) {
            Some(kind) => r == Ok::<PayloadKind, ClientError>(kind),
            None => r matches Err(e) && e@ == ClientErrorView::Unknown(
                no_response_message(frame.command),
            ),
        },
{
    match frame.transit_mode.transit_type() {
        TransitType::Request => Ok(PayloadKind::Arguments(frame.command.argument_kind())),
        TransitType::Response => match correlate(frame) {
            Ok(kind) => Ok(PayloadKind::Response(kind)),
            Err(e) => Err(e),
        },
    }
}

/// A decoded frame with its payload and metadata as typed values.
#[derive(Debug)]
pub struct Event<S, M> {
    pub command: Command,
    pub transit_mode: TransitMode,
    pub transit_type: TransitType,
    pub value: S,
    pub metadata: M,
}

impl<S, M> Event<S, M> {
    /// Wraps the typed payload and metadata read from `frame`.
    pub fn from_frame(frame: &Frame, value: S, metadata: M) -> (r: Self)
        ensures
            r.command == frame.command,
            r.transit_mode == frame.transit_mode,
            r.transit_type == type_of_mode(frame.transit_mode),
            r.value == value,
            r.metadata == metadata,
    {
        Event {
            command: frame.command,
            transit_mode: frame.transit_mode,
            transit_type: frame.transit_mode.transit_type(),
            value,
            metadata,
        }
    }
}

} // verus!
