use car_protocol::ble::{
    chunks, ChunkBuffer, RX_CHARACTERISTIC_SIZE, RX_CHARACTERISTIC_UUID, SERVICE_UUID,
    TX_CHARACTERISTIC_SIZE, TX_CHARACTERISTIC_UUID,
};

#[test]
fn gatt_identifiers() {
    assert_eq!(SERVICE_UUID, 0x01ff0100ba5ef4ee5ca1eb1e5e4b1ce0_u128);
    assert_eq!(TX_CHARACTERISTIC_UUID, 0x01ff0101ba5ef4ee5ca1eb1e5e4b1ce0_u128);
    assert_eq!(RX_CHARACTERISTIC_UUID, 0x01ff0101ba5ef4ee5ca1eb1e5e4b1ce1_u128);
    assert_eq!(
        uuid::Uuid::from_u128(SERVICE_UUID).to_string(),
        "01ff0100-ba5e-f4ee-5ca1-eb1e5e4b1ce0"
    );
    assert_eq!(TX_CHARACTERISTIC_SIZE, 1);
    assert_eq!(RX_CHARACTERISTIC_SIZE, 244);
}

#[test]
fn one_write_per_character_with_single_byte_chunks() {
    let text = "?PING${}${}\n";
    let writes = chunks(text, TX_CHARACTERISTIC_SIZE);
    assert_eq!(writes.len(), text.len());
    for (write, byte) in writes.iter().zip(text.bytes()) {
        assert_eq!(write, &vec![byte]);
    }
}

#[test]
fn empty_text_gives_no_write() {
    assert!(chunks("", 1).is_empty());
    assert!(chunks("", 20).is_empty());
}

#[test]
fn last_chunk_is_padded_with_zeros() {
    assert_eq!(
        chunks("abcdefg", 3),
        vec![b"abc".to_vec(), b"def".to_vec(), vec![b'g', 0, 0]]
    );
    assert_eq!(chunks("abcdef", 3), vec![b"abc".to_vec(), b"def".to_vec()]);
    assert_eq!(chunks("ab", 5), vec![vec![b'a', b'b', 0, 0, 0]]);
    assert_eq!(chunks("abcde", 5), vec![b"abcde".to_vec()]);
}

#[test]
fn chunk_counts() {
    for size in 1..8_usize {
        for length in 0..30_usize {
            let text = "x".repeat(length);
            let writes = chunks(&text, size);
            assert_eq!(writes.len(), (length + size - 1) / size);
            assert!(writes.iter().all(|write| write.len() == size));
            let joined: Vec<u8> = writes.concat();
            assert_eq!(&joined[..length], text.as_bytes());
            assert!(joined[length..].iter().all(|byte| *byte == 0));
        }
    }
}

#[test]
fn characters_are_written_as_their_low_byte() {
    assert_eq!(chunks("\u{e9}\u{141}\u{ff}", 1), vec![vec![0xE9], vec![0x41], vec![0xFF]]);
}

#[test]
fn repeated_read_reports_no_data() {
    let mut buffer = ChunkBuffer::new();
    assert_eq!(buffer.accept(b"~PING$1$2\n".to_vec()), Some("~PING$1$2\n".to_string()));
    assert_eq!(buffer.accept(b"~PING$1$2\n".to_vec()), None);
    assert_eq!(buffer.accept(b"~PING$1$2\n".to_vec()), None);
    assert_eq!(buffer.accept(b"~PING$1$3\n".to_vec()), Some("~PING$1$3\n".to_string()));
    assert_eq!(buffer.accept(b"~PING$1$2\n".to_vec()), Some("~PING$1$2\n".to_string()));
}

#[test]
fn first_read_of_nothing_reports_no_data() {
    let mut buffer = ChunkBuffer::new();
    assert_eq!(buffer.accept(Vec::new()), None);
    assert_eq!(buffer.accept(vec![0x41]), Some("A".to_string()));
    assert_eq!(buffer.accept(Vec::new()), Some(String::new()));
}

#[test]
fn cleared_buffer_reports_the_same_read_again() {
    let mut buffer = ChunkBuffer::new();
    assert_eq!(buffer.accept(vec![1, 2, 3]), Some("\u{1}\u{2}\u{3}".to_string()));
    buffer.clear();
    assert_eq!(buffer.accept(vec![1, 2, 3]), Some("\u{1}\u{2}\u{3}".to_string()));
}

#[test]
fn read_bytes_become_text_one_character_each() {
    let mut buffer = ChunkBuffer::new();
    assert_eq!(buffer.accept(vec![0x7E, 0xE9, 0xFF]), Some("~\u{e9}\u{ff}".to_string()));
}
