//! The frame codec: one line of text on the wire, in the form
//! `<marker><COMMAND>$<payload>$<metadata><terminator>`.
//!
//! Payload and metadata are opaque serialised text here; turning them into
//! typed values is left to the caller.

use crate::command::{
    command_name, lemma_marker_round_trip, lemma_name_round_trip, marker_of,
    mode_of_marker, parse_command, request_mode, type_of_mode, Command, TransitMode, TransitType,
};
use crate::error::{ClientError, ClientErrorView};
use crate::text::{substring, to_chars};
use vstd::prelude::*;

verus! {

/// The character between the three fields of a frame.
pub const SEPARATOR: char = '$';

/// The shortest line that can hold a frame.
pub const MINIMUM_LENGTH: usize = 5;

/// A line ends in a newline or a carriage return.
pub open spec fn is_terminator(c: char) -> bool {
    c == '\n' || c == '\r'
}

/// One frame: who it is for, what it commands, and its two serialised fields.
#[derive(Debug)]
pub struct Frame {
    pub transit_mode: TransitMode,
    pub command: Command,
    pub payload: String,
    pub metadata: String,
}

/// The mathematical content of a [`Frame`].
pub struct FrameView {
    pub transit_mode: TransitMode,
    pub command: Command,
    pub payload: Seq<char>,
    pub metadata: Seq<char>,
}

impl View for Frame {
    type V = FrameView;

    open spec fn view(&self) -> FrameView {
        FrameView {
            transit_mode: self.transit_mode,
            command: self.command,
            payload: self.payload@,
            metadata: self.metadata@,
        }
    }
}

/// Why a line is not a frame.
pub enum DecodeFailure {
    /// Fewer than five characters.
    TooShort,
    /// Not exactly two separators.
    SeparatorCount,
    /// Nothing stands before the first separator.
    MissingMarker,
    /// The first character is none of the four markers.
    UnknownMarker(char),
    /// The text between marker and first separator names no command.
    UnknownCommand(Seq<char>),
}

/// The first position in `from..end` at which `s` holds `c`, or `end` when
/// there is none.
pub open spec fn find(s: Seq<char>, c: char, from: int, end: int) -> int
    decreases end - from,
{
    if from >= end {
        end
    } else if s[from] == c {
        from
    } else {
        find(s, c, from + 1, end)
    }
}

/// True when `s` holds no `c` in `from..end`.
pub open spec fn free_of(s: Seq<char>, c: char, from: int, end: int) -> bool {
    forall|i: int| from <= i < end ==> #[trigger] s[i] != c
}

/// Where the fields of a line end: before its last character if that is a
/// terminator, else at the end of the line.
pub open spec fn body_end(line: Seq<char>) -> int {
    if line.len() > 0 && is_terminator(line[line.len() - 1]) {
        line.len() - 1
    } else {
        line.len() as int
    }
}

/// On the wire an absent payload, serialised as `null`, is written `{}`.
pub open spec fn wire_payload(payload: Seq<char>) -> Seq<char> {
    if payload == "null"@ {
        "{}"@
    } else {
        payload
    }
}

/// A payload field of `{}` stands for an absent payload and is handed on as
/// `null`.
pub open spec fn decoded_payload(field: Seq<char>) -> Seq<char> {
    if field == "{}"@ {
        "null"@
    } else {
        field
    }
}

/// What a line decodes to.
///
/// A single trailing terminator is not part of any field. The line must hold
/// exactly two separators; the first character is the marker, the rest of the
/// first field names the command, the second field is the payload and the
/// third the metadata. The command token is looked at before the marker, so
/// that a token that names no command is reported whatever the marker is.
pub open spec fn decode_spec(line: Seq<char>) -> Result<FrameView, DecodeFailure> {
    let end = body_end(line);
    let a = find(line, SEPARATOR, 0, end);
    let b = find(line, SEPARATOR, a + 1, end);
    let c = find(line, SEPARATOR, b + 1, end);
    if line.len() < MINIMUM_LENGTH {
        Err(DecodeFailure::TooShort)
    } else if !(a < end && b < end && c == end) {
        Err(DecodeFailure::SeparatorCount)
    } else if a == 0 {
        Err(DecodeFailure::MissingMarker)
    } else {
        match parse_command(line.subrange(1, a)) {
            None => Err(DecodeFailure::UnknownCommand(line.subrange(1, a))),
            Some(command) => match mode_of_marker(line[0]) {
                None => Err(DecodeFailure::UnknownMarker(line[0])),
                Some(transit_mode) => Ok(
                    FrameView {
                        transit_mode,
                        command,
                        payload: decoded_payload(line.subrange(a + 1, b)),
                        metadata: line.subrange(b + 1, end),
                    },
                ),
            },
        }
    }
}

/// The detail text of the parse error raised for each failure.
pub open spec fn failure_message(failure: DecodeFailure) -> Seq<char> {
    match failure {
        DecodeFailure::TooShort => "Too short to be a valid response"@,
        DecodeFailure::SeparatorCount => "Expected exactly two separators"@,
        DecodeFailure::MissingMarker => "Missing transit mode marker"@,
        DecodeFailure::UnknownMarker(c) => "Failed to parse transit mode from "@.push(c),
        DecodeFailure::UnknownCommand(token) => "Failed to parse command from "@ + token,
    }
}

/// The line that a frame is written as.
pub open spec fn encode_spec(frame: FrameView) -> Seq<char> {
    seq![marker_of(frame.transit_mode)] + command_name(frame.command) + seq![SEPARATOR]
        + wire_payload(frame.payload) + seq![SEPARATOR] + frame.metadata + seq!['\n']
}

/// A frame can be written and read back when neither field holds a separator.
pub open spec fn is_valid_frame(frame: FrameView) -> bool {
    &&& free_of(frame.payload, SEPARATOR, 0, frame.payload.len() as int)
    &&& free_of(frame.metadata, SEPARATOR, 0, frame.metadata.len() as int)
}

/// `find` stops at `k` when nothing before `k` matches and `k` itself matches
/// or is the end.
pub proof fn lemma_find(s: Seq<char>, c: char, from: int, k: int, end: int)
    requires
        from <= k <= end,
        free_of(s, c, from, k),
        k == end || s[k] == c,
    ensures
        find(s, c, from, end) == k,
    decreases k - from,
{
    if from < k {
        assert(s[from] != c);
        lemma_find(s, c, from + 1, k, end);
    }
}

/// `find` returns a position in `from..=end`; nothing before it matches, and
/// it matches unless it is the end.
pub proof fn lemma_find_result(s: Seq<char>, c: char, from: int, end: int)
    requires
        from <= end,
    ensures
        from <= find(s, c, from, end) <= end,
        free_of(s, c, from, find(s, c, from, end)),
        find(s, c, from, end) < end ==> s[find(s, c, from, end)] == c,
    decreases end - from,
{
    if from < end && s[from] != c {
        lemma_find_result(s, c, from + 1, end);
    }
}

/// How often `s` holds `c` in `from..end`.
pub open spec fn count(s: Seq<char>, c: char, from: int, end: int) -> nat
    decreases end - from,
{
    if from >= end {
        0
    } else if s[from] == c {
        1 + count(s, c, from + 1, end)
    } else {
        count(s, c, from + 1, end)
    }
}

/// Counting from `from` is counting from the first match on, plus one for
/// that match; without a match the count is zero.
pub proof fn lemma_count_from_find(s: Seq<char>, c: char, from: int, end: int)
    requires
        from <= end,
    ensures
        count(s, c, from, end) == if find(s, c, from, end) < end {
            1 + count(s, c, find(s, c, from, end) + 1, end)
        } else {
            0
        },
    decreases end - from,
{
    if from < end && s[from] != c {
        lemma_count_from_find(s, c, from + 1, end);
    }
}

/// The three searches of [`decode_spec`] succeed, succeed and fail exactly
/// when the line holds two separators before its terminator.
pub proof fn lemma_separator_count(line: Seq<char>)
    ensures
        ({
            let end = body_end(line);
            let a = find(line, SEPARATOR, 0, end);
            let b = find(line, SEPARATOR, a + 1, end);
            let c = find(line, SEPARATOR, b + 1, end);
            (a < end && b < end && c == end) <==> count(line, SEPARATOR, 0, end) == 2
        }),
{
    let end = body_end(line);
    let a = find(line, SEPARATOR, 0, end);
    lemma_find_result(line, SEPARATOR, 0, end);
    lemma_count_from_find(line, SEPARATOR, 0, end);
    if a < end {
        let b = find(line, SEPARATOR, a + 1, end);
        lemma_find_result(line, SEPARATOR, a + 1, end);
        lemma_count_from_find(line, SEPARATOR, a + 1, end);
        if b < end {
            let c = find(line, SEPARATOR, b + 1, end);
            lemma_find_result(line, SEPARATOR, b + 1, end);
            lemma_count_from_find(line, SEPARATOR, b + 1, end);
        }
    }
}

/// A line is rejected when it is shorter than five characters, when it does
/// not hold exactly two separators, and when its command token names no
/// command. In the last case the failure carries the token, whatever the
/// first character of the line is.
pub proof fn lemma_decode_rejects(line: Seq<char>)
    ensures
        line.len() < MINIMUM_LENGTH ==> decode_spec(line) == Err::<FrameView, DecodeFailure>(
            DecodeFailure::TooShort,
        ),
        line.len() >= MINIMUM_LENGTH && count(line, SEPARATOR, 0, body_end(line)) != 2
            ==> decode_spec(line) == Err::<FrameView, DecodeFailure>(DecodeFailure::SeparatorCount),
        ({
            let token = line.subrange(1, find(line, SEPARATOR, 0, body_end(line)));
            line.len() >= MINIMUM_LENGTH && count(line, SEPARATOR, 0, body_end(line)) == 2 && find(
                line,
                SEPARATOR,
                0,
                body_end(line),
            ) > 0 && parse_command(token) is None ==> decode_spec(line) == Err::<
                FrameView,
                DecodeFailure,
            >(DecodeFailure::UnknownCommand(token))
        }),
        decode_spec(line) is Ok ==> line.len() >= MINIMUM_LENGTH && count(
            line,
            SEPARATOR,
            0,
            body_end(line),
        ) == 2 && mode_of_marker(line[0]) is Some && parse_command(
            line.subrange(1, find(line, SEPARATOR, 0, body_end(line))),
        ) is Some,
{
    lemma_separator_count(line);
}

/// Whatever decodes is a valid frame.
pub proof fn lemma_decoded_is_valid(line: Seq<char>)
    ensures
        decode_spec(line) matches Ok(frame) ==> is_valid_frame(frame),
{
    reveal_strlit("null");
    let end = body_end(line);
    let a = find(line, SEPARATOR, 0, end);
    let b = find(line, SEPARATOR, a + 1, end);
    lemma_find_result(line, SEPARATOR, 0, end);
    if a < end {
        lemma_find_result(line, SEPARATOR, a + 1, end);
        if b < end {
            lemma_find_result(line, SEPARATOR, b + 1, end);
        }
    }
    if let Ok(frame) = decode_spec(line) {
        let field = line.subrange(a + 1, b);
        assert forall|i: int| 0 <= i < frame.payload.len() implies #[trigger] frame.payload[i]
            != SEPARATOR by {
            if field == "{}"@ {
            } else {
                assert(field[i] == line[a + 1 + i]);
            }
        }
        assert forall|i: int| 0 <= i < frame.metadata.len() implies #[trigger] frame.metadata[i]
            != SEPARATOR by {
            assert(frame.metadata[i] == line[b + 1 + i]);
        }
    }
}

/// The line of a valid frame begins with the marker of its transit mode,
/// holds exactly two separators, and ends in a newline.
pub proof fn lemma_encoded_shape(frame: FrameView)
    requires
        is_valid_frame(frame),
    ensures
        encode_spec(frame).len() >= MINIMUM_LENGTH + 3,
        encode_spec(frame)[0] == marker_of(frame.transit_mode),
        encode_spec(frame).last() == '\n',
        count(encode_spec(frame), SEPARATOR, 0, encode_spec(frame).len() - 1) == 2,
{
    lemma_round_trip(frame);
    lemma_decode_rejects(encode_spec(frame));
    lemma_name_round_trip(frame.command);
}

/// Round trip: a valid frame, written and read back, is the same frame, with
/// the payload as [`decoded_payload`] hands it on (an absent payload stays
/// `null`; a payload that is literally `{}` comes back as `null`).
pub proof fn lemma_round_trip(frame: FrameView)
    requires
        is_valid_frame(frame),
    ensures
        decode_spec(encode_spec(frame)) == Ok::<FrameView, DecodeFailure>(
            FrameView { payload: decoded_payload(frame.payload), ..frame },
        ),
{
    reveal_strlit("{}");
    reveal_strlit("null");
    lemma_name_round_trip(frame.command);
    lemma_marker_round_trip(frame.transit_mode);
    let name = command_name(frame.command);
    let field = wire_payload(frame.payload);
    let line = encode_spec(frame);
    let a = 1 + name.len() as int;
    let b = a + 1 + field.len() as int;
    let end = b + 1 + frame.metadata.len() as int;
    assert(line.len() == end + 1);
    assert(line[end] == '\n');
    assert(body_end(line) == end);
    assert(line[0] == marker_of(frame.transit_mode));
    assert forall|i: int| 0 <= i < a implies #[trigger] line[i] != SEPARATOR by {
        if i > 0 {
            assert(line[i] == name[i - 1]);
        }
    }
    assert(line[a] == SEPARATOR);
    lemma_find(line, SEPARATOR, 0, a, end);
    assert forall|i: int| a + 1 <= i < b implies #[trigger] line[i] != SEPARATOR by {
        assert(line[i] == field[i - a - 1]);
        if frame.payload == "null"@ {
            assert(field == "{}"@);
        } else {
            assert(field[i - a - 1] == frame.payload[i - a - 1]);
        }
    }
    assert(line[b] == SEPARATOR);
    lemma_find(line, SEPARATOR, a + 1, b, end);
    assert forall|i: int| b + 1 <= i < end implies #[trigger] line[i] != SEPARATOR by {
        assert(line[i] == frame.metadata[i - b - 1]);
    }
    lemma_find(line, SEPARATOR, b + 1, end, end);
    assert(line.subrange(1, a) =~= name);
    assert(line.subrange(a + 1, b) =~= field);
    assert(line.subrange(b + 1, end) =~= frame.metadata);
    assert(decoded_payload(field) == decoded_payload(frame.payload)) by {
        if frame.payload == "null"@ {
            assert("null"@ != "{}"@) by {
                assert("null"@.len() == 4);
                assert("{}"@.len() == 2);
            }
        }
    }
}

/// Scans `chars[from..end]` for `c`.
fn find_char(chars: &[char], c: char, from: usize, end: usize) -> (r: usize)
    requires
        from <= end <= chars@.len(),
    ensures
        r == find(chars@, c, from as int, end as int),
        from <= r <= end,
{
    let mut i: usize = from;
    while i < end && chars[i] != c
        invariant
            from <= i <= end <= chars@.len(),
            free_of(chars@, c, from as int, i as int),
        decreases end - i,
    {
        i += 1;
    }
    proof {
        lemma_find(chars@, c, from as int, i as int, end as int);
    }
    i
}

/// Builds the parse error for an unknown marker.
fn unknown_marker(marker: char) -> (r: ClientError)
    ensures
        r@ == ClientErrorView::Parse(failure_message(DecodeFailure::UnknownMarker(marker))),
{
    let mut text = String::from_str("Failed to parse transit mode from ");
    text.push(marker);
    ClientError::Parse(text)
}

/// Builds the parse error for a token that names no command.
fn unknown_command(chars: &[char], from: usize, to: usize) -> (r: ClientError)
    requires
        from <= to <= chars@.len(),
    ensures
        r@ == ClientErrorView::Parse(
            failure_message(
                DecodeFailure::UnknownCommand(chars@.subrange(from as int, to as int)),
            ),
        ),
{
    let token = substring(chars, from, to);
    ClientError::Parse(String::from_str("Failed to parse command from ").concat(token.as_str()))
}

/// Reads the payload field, replacing the empty-payload sentinel.
fn read_payload(chars: &[char], from: usize, to: usize) -> (r: String)
    requires
        from <= to <= chars@.len(),
    ensures
        r@ == decoded_payload(chars@.subrange(from as int, to as int)),
{
    proof {
        reveal_strlit("{}");
    }
    if to - from == 2 && chars[from] == '{' && chars[from + 1] == '}' {
        assert(chars@.subrange(from as int, to as int) =~= "{}"@);
        String::from_str("null")
    } else {
        proof {
            let field = chars@.subrange(from as int, to as int);
            if field == "{}"@ {
                assert(field[0] == '{' && field[1] == '}');
            }
        }
        substring(chars, from, to)
    }
}

/// Decodes one line into a frame.
///
/// Fails with a parse error, and never otherwise, on a line shorter than five
/// characters, a line without exactly two separators, a line whose command
/// token names no command, and a line whose first character is no marker.
/// The failures are looked for in this order, so an unknown command token is
/// reported with the token even where the marker is unknown too.
pub fn decode(data: &str) -> (r: Result<Frame, ClientError>)
    ensures
        match decode_spec(data@) {
            Ok(frame) => r matches Ok(got) && got@ == frame,
            Err(failure) => r matches Err(e) && e@ == ClientErrorView::Parse(
                failure_message(failure),
            ),
        },
{
    let chars = to_chars(data);
    let n = chars.len();
    if n < MINIMUM_LENGTH {
        return Err(ClientError::Parse(String::from_str("Too short to be a valid response")));
    }
    let last = chars[n - 1];
    let end = if last == '\n' || last == '\r' {
        n - 1
    } else {
        n
    };
    let a = find_char(chars.as_slice(), SEPARATOR, 0, end);
    if a >= end {
        return Err(ClientError::Parse(String::from_str("Expected exactly two separators")));
    }
    let b = find_char(chars.as_slice(), SEPARATOR, a + 1, end);
    if b >= end {
        return Err(ClientError::Parse(String::from_str("Expected exactly two separators")));
    }
    let c = find_char(chars.as_slice(), SEPARATOR, b + 1, end);
    if c != end {
        return Err(ClientError::Parse(String::from_str("Expected exactly two separators")));
    }
    if a == 0 {
        return Err(ClientError::Parse(String::from_str("Missing transit mode marker")));
    }
    let command = match Command::lookup(chars.as_slice(), 1, a) {
        Some(command) => command,
        None => {
            return Err(unknown_command(chars.as_slice(), 1, a));
        },
    };
    let transit_mode = match TransitMode::from_marker(chars[0]) {
        Some(mode) => mode,
        None => {
            return Err(unknown_marker(chars[0]));
        },
    };
    let payload = read_payload(chars.as_slice(), a + 1, b);
    let metadata = substring(chars.as_slice(), b + 1, end);
    Ok(Frame { transit_mode, command, payload, metadata })
}

/// Writes a frame as one line, terminated by a newline.
pub fn encode(frame: &Frame) -> (r: String)
    ensures
        r@ == encode_spec(frame@),
{
    let mut line = String::new();
    line.push(frame.transit_mode.marker());
    let mut line = line.concat(frame.command.name());
    line.push(SEPARATOR);
    let absent = String::from_str("null");
    let line = if frame.payload == absent {
        line.concat("{}")
    } else {
        line.concat(frame.payload.as_str())
    };
    let mut line = line;
    line.push(SEPARATOR);
    let mut line = line.concat(frame.metadata.as_str());
    line.push('\n');
    assert(line@ =~= encode_spec(frame@));
    line
}

/// True when `chars` holds no separator.
fn has_no_separator(chars: &[char]) -> (r: bool)
    ensures
        r == free_of(chars@, SEPARATOR, 0, chars@.len() as int),
{
    let at = find_char(chars, SEPARATOR, 0, chars.len());
    proof {
        lemma_find_result(chars@, SEPARATOR, 0, chars@.len() as int);
    }
    at == chars.len()
}

impl Frame {
    /// A request for `command`, marked with the mode in which that command
    /// travels.
    pub fn request(command: Command, payload: String, metadata: String) -> (r: Frame)
        ensures
            r@ == (FrameView {
                transit_mode: request_mode(command),
                command,
                payload: payload@,
                metadata: metadata@,
            }),
    {
        Frame { transit_mode: command.transit_mode(), command, payload, metadata }
    }

    /// Whether this frame asks or answers.
    pub fn transit_type(&self) -> (r: TransitType)
        ensures
            r == type_of_mode(self.transit_mode),
    {
        self.transit_mode.transit_type()
    }

    /// True when the frame can be written and read back: neither field holds
    /// a separator.
    pub fn is_valid(&self) -> (r: bool)
        ensures
            r == is_valid_frame(self@),
    {
        let payload = to_chars(self.payload.as_str());
        let metadata = to_chars(self.metadata.as_str());
        has_no_separator(payload.as_slice()) && has_no_separator(metadata.as_slice())
    }
}

} // verus!
