//! The bridge between the serial line and the wireless peripheral, as a
//! state machine: what it does with each line from the serial side and each
//! read from the wireless side, and how its connection state moves.
//!
//! The bridge itself performs no input or output. Each step returns the
//! action that its caller is to carry out.

use crate::ble::{
    accept_spec, chunks, chunks_of, chunks_view, ChunkBuffer, TX_CHARACTERISTIC_SIZE,
};
use crate::command::{command_name, Command, TransitMode};
use crate::error::{
    bluetooth_error_message, client_error_message, BluetoothError, ClientErrorView,
};
use crate::frame::{
    decode, decode_spec, encode, encode_spec, failure_message, is_valid_frame,
    lemma_encoded_shape, lemma_round_trip, DecodeFailure, Frame, FrameView, MINIMUM_LENGTH,
};
use crate::payload::{bluetooth_status_text, BluetoothStatusResponse};
use vstd::prelude::*;

verus! {

/// The first character of every line that is meant for the bridge itself.
pub const BRIDGE_MARKER: char = '^';

/// The state of the wireless connection.
#[derive(Clone, Copy, Debug, PartialEq, Eq, Structural)]
pub enum BridgeConnectionState {
    Disconnected,
    Discovering,
    Connected,
}

/// What a client can ask of the bridge.
#[derive(Clone, Copy, Debug, PartialEq, Eq, Structural)]
pub enum Request {
    Connect,
    Disconnect,
    BluetoothStatus,
}

/// A failure of the bridge that does not come from a transport.
#[derive(Debug)]
pub enum BridgeError {
    BluetoothError(BluetoothError),
    RequestError(String),
}

/// The mathematical content of a [`BridgeError`].
pub enum BridgeErrorView {
    BluetoothError(BluetoothError),
    RequestError(Seq<char>),
}

impl View for BridgeError {
    type V = BridgeErrorView;

    open spec fn view(&self) -> BridgeErrorView {
        match *self {
            BridgeError::BluetoothError(e) => BridgeErrorView::BluetoothError(e),
            BridgeError::RequestError(s) => BridgeErrorView::RequestError(s@),
        }
    }
}

/// The message shown for a bridge error.
pub open spec fn bridge_error_message(e: BridgeErrorView) -> Seq<char> {
    match e {
        BridgeErrorView::BluetoothError(e) => "A bluetooth error has occurred: "@
            + bluetooth_error_message(e),
        BridgeErrorView::RequestError(s) => "Request error: "@ + s,
    }
}

impl BridgeError {
    /// The message shown for this error.
    pub fn to_string(&self) -> (r: String)
        ensures
            r@ == bridge_error_message(self@),
    {
        match self {
            BridgeError::BluetoothError(e) => {
                let detail = e.to_string();
                String::from_str("A bluetooth error has occurred: ").concat(detail.as_str())
            },
            BridgeError::RequestError(s) => String::from_str("Request error: ").concat(s.as_str()),
        }
    }
}

/// Why a line is not a request to the bridge.
pub enum RequestFailure {
    /// The line is no frame.
    Malformed(DecodeFailure),
    /// The command is one for the vehicle, not for the bridge.
    NotForBridge(Command),
}

/// The request that a command makes of the bridge, if it is a bridge
/// command.
pub open spec fn request_of(command: Command) -> Option<Request> {
    match command {
        Command::Connect => Some(Request::Connect),
        Command::Disconnect => Some(Request::Disconnect),
        Command::BluetoothStatus => Some(Request::BluetoothStatus),
        _ => None,
    }
}

/// What a line asks of the bridge: the line is decoded as a frame, and the
/// command of the frame is the request. Payload and metadata play no part.
pub open spec fn request_spec(data: Seq<char>) -> Result<Request, RequestFailure> {
    match decode_spec(data) {
        Err(failure) => Err(RequestFailure::Malformed(failure)),
        Ok(frame) => match request_of(frame.command) {
            Some(request) => Ok(request),
            None => Err(RequestFailure::NotForBridge(frame.command)),
        },
    }
}

/// The detail text of the request error raised for each failure. A line
/// that is too short is reported as such; every other line that is no frame
/// is reported with the message of its parse error.
pub open spec fn request_failure_message(failure: RequestFailure) -> Seq<char> {
    match failure {
        RequestFailure::Malformed(DecodeFailure::TooShort) => failure_message(
            DecodeFailure::TooShort,
        ),
        RequestFailure::Malformed(other) => client_error_message(
            ClientErrorView::Parse(failure_message(other)),
        ),
        RequestFailure::NotForBridge(command) => "Not a command for the bridge: "@ + command_name(
            command,
        ),
    }
}

/// The mathematical content of a bridge: its connection state and the last
/// inbound read that it keeps.
pub struct BridgeView {
    pub state: BridgeConnectionState,
    pub previous: Seq<u8>,
}

/// What the caller of a step is to do.
#[derive(Debug)]
pub enum BridgeAction {
    /// Nothing: the line is dropped.
    Discard,
    /// Log the error; nothing else happens.
    Report(BridgeError),
    /// Switch the wireless adapter off and on again, then scan for the
    /// peripheral and report the outcome with `discovery_finished`.
    Connect,
    /// Switch the wireless adapter off.
    Disconnect,
    /// Answer on the serial side with the connection status.
    ReplyStatus(BluetoothStatusResponse),
    /// Write these chunks to the outbound characteristic, one write each, in
    /// order.
    WriteBluetooth(Vec<Vec<u8>>),
}

/// The mathematical content of a [`BridgeAction`].
pub enum ActionView {
    Discard,
    Report(BridgeErrorView),
    Connect,
    Disconnect,
    ReplyStatus(bool),
    WriteBluetooth(Seq<Seq<u8>>),
}

impl View for BridgeAction {
    type V = ActionView;

    open spec fn view(&self) -> ActionView {
        match *self {
            BridgeAction::Discard => ActionView::Discard,
            BridgeAction::Report(e) => ActionView::Report(e@),
            BridgeAction::Connect => ActionView::Connect,
            BridgeAction::Disconnect => ActionView::Disconnect,
            BridgeAction::ReplyStatus(status) => ActionView::ReplyStatus(status.connected),
            BridgeAction::WriteBluetooth(chunks) => ActionView::WriteBluetooth(chunks_view(chunks)),
        }
    }
}

/// One step on a line from the serial side.
///
/// A line that begins with the bridge marker is for the bridge and is never
/// passed on. `CONNECT` drops the kept inbound read and starts discovery;
/// `DISCONNECT` ends the connection; `BLUETOOTHSTATUS` is answered with
/// whether the bridge is connected; a line that is no request is reported
/// and changes nothing. Any other line is passed on to the peripheral while
/// connected, and dropped otherwise.
pub open spec fn serial_step(bridge: BridgeView, line: Seq<char>) -> (BridgeView, ActionView) {
    if line.len() > 0 && line[0] == BRIDGE_MARKER {
        match request_spec(line) {
            Err(failure) => (
                bridge,
                ActionView::Report(BridgeErrorView::RequestError(request_failure_message(failure))),
            ),
            Ok(Request::Connect) => (
                BridgeView { state: BridgeConnectionState::Discovering, previous: Seq::empty() },
                ActionView::Connect,
            ),
            Ok(Request::Disconnect) => (
                BridgeView { state: BridgeConnectionState::Disconnected, ..bridge },
                ActionView::Disconnect,
            ),
            Ok(Request::BluetoothStatus) => (
                bridge,
                ActionView::ReplyStatus(bridge.state == BridgeConnectionState::Connected),
            ),
        }
    } else if bridge.state == BridgeConnectionState::Connected {
        (bridge, ActionView::WriteBluetooth(chunks_of(line, TX_CHARACTERISTIC_SIZE as int)))
    } else {
        (bridge, ActionView::Discard)
    }
}

/// One step on a read from the wireless side: while connected the read goes
/// through duplicate suppression; in any other state it is refused.
pub open spec fn bluetooth_step(bridge: BridgeView, raw: Seq<u8>) -> (
    BridgeView,
    Result<Option<Seq<char>>, BridgeErrorView>,
) {
    if bridge.state == BridgeConnectionState::Connected {
        (
            BridgeView { previous: accept_spec(bridge.previous, raw).0, ..bridge },
            Ok(accept_spec(bridge.previous, raw).1),
        )
    } else {
        (bridge, Err(BridgeErrorView::BluetoothError(BluetoothError::NotConnected)))
    }
}

/// The state after discovery has ended: connected if a peripheral was found,
/// disconnected if not. Outside discovery the outcome changes nothing.
pub open spec fn discovery_step(state: BridgeConnectionState, found: bool)
    -> BridgeConnectionState {
    if state == BridgeConnectionState::Discovering {
        if found {
            BridgeConnectionState::Connected
        } else {
            BridgeConnectionState::Disconnected
        }
    } else {
        state
    }
}

/// One tick of the bridge, given what its two sides have brought: first the
/// inbound read, if one was made, then the line from the serial side, if
/// one was completed. An inbound read outside a connection is ignored.
/// Returns the state after the tick, the text to write to the serial side,
/// and the action that the line calls for.
pub open spec fn tick_spec(bridge: BridgeView, inbound: Option<Seq<u8>>, line: Option<Seq<char>>)
    -> (BridgeView, Option<Seq<char>>, ActionView) {
    let received = match inbound {
        Some(raw) => bluetooth_step(bridge, raw),
        None => (bridge, Ok(None)),
    };
    let to_serial = match received.1 {
        Ok(text) => text,
        Err(_) => None,
    };
    match line {
        Some(line) => (serial_step(received.0, line).0, to_serial, serial_step(received.0, line).1),
        None => (received.0, to_serial, ActionView::Discard),
    }
}

/// What one tick asks of its caller.
#[derive(Debug)]
pub struct TickOutcome {
    /// Text to write to the serial side, verbatim.
    pub to_serial: Option<String>,
    /// What the line from the serial side calls for.
    pub action: BridgeAction,
}

/// The line with which the bridge answers a status request.
pub open spec fn status_reply_spec(connected: bool, metadata: Seq<char>) -> Seq<char> {
    encode_spec(
        FrameView {
            transit_mode: TransitMode::SerialBridgeToClientResponse,
            command: Command::BluetoothStatus,
            payload: bluetooth_status_text(connected),
            metadata,
        },
    )
}

/// The serial-to-wireless bridge.
#[derive(Debug)]
pub struct SerialBluetoothBridge {
    state: BridgeConnectionState,
    previous_rx_value: ChunkBuffer,
}

impl View for SerialBluetoothBridge {
    type V = BridgeView;

    closed spec fn view(&self) -> BridgeView {
        BridgeView { state: self.state, previous: self.previous_rx_value@ }
    }
}

impl SerialBluetoothBridge {
    /// A bridge that is disconnected and has seen no inbound read.
    pub fn new() -> (r: Self)
        ensures
            r@ == (BridgeView {
                state: BridgeConnectionState::Disconnected,
                previous: Seq::<u8>::empty(),
            }),
    {
        SerialBluetoothBridge {
            state: BridgeConnectionState::Disconnected,
            previous_rx_value: ChunkBuffer::new(),
        }
    }

    /// The connection state.
    pub fn state(&self) -> (r: BridgeConnectionState)
        ensures
            r == self@.state,
    {
        self.state
    }

    /// True while the bridge holds a wireless connection. Only then is the
    /// inbound characteristic read.
    pub fn connected(&self) -> (r: bool)
        ensures
            r == (self@.state == BridgeConnectionState::Connected),
    {
        match self.state {
            BridgeConnectionState::Connected => true,
            _ => false,
        }
    }

    /// Reads a request to the bridge from a line.
    pub fn parse_request(data: &str) -> (r: Result<Request, BridgeError>)
        ensures
            match request_spec(data@) {
                Ok(request) => r matches Ok(got) && got == request,
                Err(failure) => r matches Err(e) && e@ == BridgeErrorView::RequestError(
                    request_failure_message(failure),
                ),
            },
    {
        if data.unicode_len() < MINIMUM_LENGTH {
            return Err(
                BridgeError::RequestError(String::from_str("Too short to be a valid response")),
            );
        }
        let frame = match decode(data) {
            Ok(frame) => frame,
            Err(e) => {
                return Err(BridgeError::RequestError(e.to_string()));
            },
        };
        match frame.command {
            Command::Connect => Ok(Request::Connect),
            Command::Disconnect => Ok(Request::Disconnect),
            Command::BluetoothStatus => Ok(Request::BluetoothStatus),
            command => Err(
                BridgeError::RequestError(
                    String::from_str("Not a command for the bridge: ").concat(command.name()),
                ),
            ),
        }
    }

    /// Takes one line from the serial side and says what is to be done.
    pub fn handle_serial(&mut self, line: &str) -> (r: BridgeAction)
        ensures
            final(self)@ == serial_step(old(self)@, line@).0,
            r@ == serial_step(old(self)@, line@).1,
    {
        let for_bridge = line.unicode_len() > 0 && line.get_char(0) == BRIDGE_MARKER;
        if for_bridge {
            match Self::parse_request(line) {
                Err(e) => BridgeAction::Report(e),
                Ok(Request::Connect) => {
                    self.state = BridgeConnectionState::Discovering;
                    self.previous_rx_value.clear();
                    BridgeAction::Connect
                },
                Ok(Request::Disconnect) => {
                    self.state = BridgeConnectionState::Disconnected;
                    BridgeAction::Disconnect
                },
                Ok(Request::BluetoothStatus) => BridgeAction::ReplyStatus(
                    BluetoothStatusResponse { connected: self.connected() },
                ),
            }
        } else if self.connected() {
            BridgeAction::WriteBluetooth(chunks(line, TX_CHARACTERISTIC_SIZE))
        } else {
            BridgeAction::Discard
        }
    }

    /// Takes one read of the inbound characteristic. Returns the text to be
    /// written to the serial side, if the read brought anything new.
    pub fn handle_bluetooth(&mut self, raw: Vec<u8>) -> (r: Result<Option<String>, BridgeError>)
        ensures
            final(self)@ == bluetooth_step(old(self)@, raw@).0,
            match bluetooth_step(old(self)@, raw@).1 {
                Ok(Some(text)) => r matches Ok(Some(got)) && got@ == text,
                Ok(None) => r matches Ok(None),
                Err(e) => r matches Err(got) && got@ == e,
            },
    {
        if !self.connected() {
            return Err(BridgeError::BluetoothError(BluetoothError::NotConnected));
        }
        Ok(self.previous_rx_value.accept(raw))
    }

    /// One tick. `inbound` is the read of the inbound characteristic, made
    /// only while connected; `line` is the line that the serial side has
    /// completed, if any.
    pub fn tick(&mut self, inbound: Option<Vec<u8>>, line: Option<&str>) -> (r: TickOutcome)
        ensures
            ({
                let inbound_view = match inbound {
                    Some(raw) => Some(raw@),
                    None => None,
                };
                let line_view = match line {
                    Some(line) => Some(line@),
                    None => None,
                };
                let expected = tick_spec(old(self)@, inbound_view, line_view);
                &&& final(self)@ == expected.0
                &&& match expected.1 {
                    Some(text) => r.to_serial matches Some(got) && got@ == text,
                    None => r.to_serial is None,
                }
                &&& r.action@ == expected.2
            }),
    {
        let to_serial = match inbound {
            Some(raw) => match self.handle_bluetooth(raw) {
                Ok(text) => text,
                Err(_) => None,
            },
            None => None,
        };
        let action = match line {
            Some(line) => self.handle_serial(line),
            None => BridgeAction::Discard,
        };
        TickOutcome { to_serial, action }
    }

    /// Records how discovery ended.
    pub fn discovery_finished(&mut self, found: bool)
        ensures
            final(self)@ == (BridgeView {
                state: discovery_step(old(self)@.state, found),
                ..old(self)@
            }),
    {
        match self.state {
            BridgeConnectionState::Discovering => {
                self.state = if found {
                    BridgeConnectionState::Connected
                } else {
                    BridgeConnectionState::Disconnected
                };
            },
            _ => {},
        }
    }

    /// Records a transport failure: the wireless state is reset to
    /// disconnected, whatever it was.
    pub fn transport_failed(&mut self)
        ensures
            final(self)@ == (BridgeView {
                state: BridgeConnectionState::Disconnected,
                ..old(self)@
            }),
    {
        self.state = BridgeConnectionState::Disconnected;
    }

    /// The line that answers a status request, given the serialised
    /// metadata to send with it.
    pub fn status_reply(status: BluetoothStatusResponse, metadata: String) -> (r: String)
        ensures
            r@ == status_reply_spec(status.connected, metadata@),
    {
        let frame = Frame {
            transit_mode: TransitMode::SerialBridgeToClientResponse,
            command: Command::BluetoothStatus,
            payload: status.wire_text(),
            metadata,
        };
        encode(&frame)
    }
}

/// A line for the bridge is never passed on to the peripheral, and leaves
/// the kept inbound read alone unless it starts discovery.
pub proof fn lemma_bridge_lines_stay_local(bridge: BridgeView, line: Seq<char>)
    requires
        line.len() > 0,
        line[0] == BRIDGE_MARKER,
    ensures
        !(serial_step(bridge, line).1 is WriteBluetooth),
        serial_step(bridge, line).1 is Connect <==> request_spec(line) == Ok::<
            Request,
            RequestFailure,
        >(Request::Connect),
        serial_step(bridge, line).1 is Connect ==> serial_step(bridge, line).0.state
            == BridgeConnectionState::Discovering,
{
}

/// Discovery ends in the connected state when a peripheral was found and in
/// the disconnected state when none was; it never stays in discovery.
pub proof fn lemma_discovery_ends(found: bool)
    ensures
        discovery_step(BridgeConnectionState::Discovering, found) == if found {
            BridgeConnectionState::Connected
        } else {
            BridgeConnectionState::Disconnected
        },
        discovery_step(BridgeConnectionState::Discovering, found)
            != BridgeConnectionState::Discovering,
{
}

/// The line of a valid frame asks of the bridge what the command of the
/// frame stands for: a written `CONNECT` frame asks to connect, whatever its
/// payload and metadata.
pub proof fn lemma_request_of_encoded(frame: FrameView)
    requires
        is_valid_frame(frame),
    ensures
        request_spec(encode_spec(frame)) == match request_of(frame.command) {
            Some(request) => Ok::<Request, RequestFailure>(request),
            None => Err::<Request, RequestFailure>(RequestFailure::NotForBridge(frame.command)),
        },
{
    lemma_round_trip(frame);
}

/// A written `CONNECT` request starts discovery in every state of the
/// bridge and is not passed on; discovery then ends connected or
/// disconnected.
pub proof fn lemma_connect_starts_discovery(bridge: BridgeView, frame: FrameView, found: bool)
    requires
        is_valid_frame(frame),
        frame.command == Command::Connect,
        frame.transit_mode == TransitMode::ClientToSerialBridgeRequest,
    ensures
        serial_step(bridge, encode_spec(frame)).1 is Connect,
        serial_step(bridge, encode_spec(frame)).0 == (BridgeView {
            state: BridgeConnectionState::Discovering,
            previous: Seq::<u8>::empty(),
        }),
        discovery_step(serial_step(bridge, encode_spec(frame)).0.state, found) == if found {
            BridgeConnectionState::Connected
        } else {
            BridgeConnectionState::Disconnected
        },
{
    lemma_request_of_encoded(frame);
    lemma_encoded_shape(frame);
}

/// The connection state moves only when a line asks to connect or to
/// disconnect; an inbound read never moves it.
pub proof fn lemma_state_moves_on_request_only(bridge: BridgeView, line: Seq<char>, raw: Seq<u8>)
    ensures
        serial_step(bridge, line).0.state != bridge.state ==> serial_step(bridge, line).1 is Connect
            || serial_step(bridge, line).1 is Disconnect,
        bluetooth_step(bridge, raw).0.state == bridge.state,
{
}

/// Of two ticks in a row that read the same bytes from the peripheral, the
/// second writes nothing to the serial side, whatever the state of the
/// bridge and whatever lines the two ticks handle.
pub proof fn lemma_tick_suppresses_repeat(
    bridge: BridgeView,
    raw: Seq<u8>,
    first_line: Option<Seq<char>>,
    second_line: Option<Seq<char>>,
)
    ensures
        tick_spec(tick_spec(bridge, Some(raw), first_line).0, Some(raw), second_line).1 is None,
{
}

} // verus!
