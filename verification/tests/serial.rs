use car_protocol::serial::SerialLineBuffer;

#[test]
fn no_data_when_nothing_is_available() {
    let mut buffer = SerialLineBuffer::new();
    assert_eq!(buffer.poll(&[]), (0, None));
    assert!(buffer.pending().is_empty());
    assert_eq!(buffer.poll(b"ST"), (2, None));
    assert_eq!(buffer.poll(&[]), (0, None));
    assert_eq!(buffer.pending(), b"ST");
}

#[test]
fn resumes_a_partial_line() {
    let mut buffer = SerialLineBuffer::new();
    assert_eq!(buffer.poll(b"ST"), (2, None));
    assert_eq!(buffer.pending(), b"ST");
    assert_eq!(buffer.poll(b"ATUS\n"), (5, Some("STATUS".to_string())));
    assert!(buffer.pending().is_empty());
}

#[test]
fn stops_at_the_first_terminator() {
    let mut buffer = SerialLineBuffer::new();
    assert_eq!(buffer.poll(b"~PING$1$2\r~STOP"), (10, Some("~PING$1$2".to_string())));
    assert!(buffer.pending().is_empty());
    assert_eq!(buffer.poll(b"~STOP"), (5, None));
    assert_eq!(buffer.poll(b"${}${}\nrest"), (7, Some("~STOP${}${}".to_string())));
}

#[test]
fn a_lone_terminator_completes_an_empty_line() {
    let mut buffer = SerialLineBuffer::new();
    assert_eq!(buffer.poll(b"\n"), (1, Some(String::new())));
    assert_eq!(buffer.poll(b"ab"), (2, None));
    assert_eq!(buffer.poll(b"\rcd"), (1, Some("ab".to_string())));
}

#[test]
fn byte_by_byte() {
    let mut buffer = SerialLineBuffer::new();
    let mut lines = Vec::new();
    for byte in b"^CONNECT${}${}\n~PING" {
        let ended = buffer.accept(*byte);
        assert_eq!(ended, *byte == b'\n');
        if let Some(line) = buffer.take_line() {
            lines.push(line);
        }
    }
    assert_eq!(lines, vec!["^CONNECT${}${}".to_string()]);
    assert_eq!(buffer.pending(), b"~PING");
    assert_eq!(buffer.take_line(), None);
    assert_eq!(buffer.pending(), b"~PING");
}

#[test]
fn bytes_above_ascii_become_one_character_each() {
    let mut buffer = SerialLineBuffer::new();
    let (taken, line) = buffer.poll(&[0x41, 0xE9, 0xFF, 0x0D]);
    assert_eq!(taken, 4);
    assert_eq!(line, Some("A\u{e9}\u{ff}".to_string()));
}
