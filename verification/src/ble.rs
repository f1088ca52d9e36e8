//! The chunked channel over a Bluetooth Low Energy characteristic pair.
//!
//! Outbound text is cut into writes of a fixed size. Inbound reads are
//! level-triggered: the characteristic reports its value again and again, so
//! a read equal to the one before it brings nothing new.

use crate::text::{bytes_to_text, text_of, to_chars};
use vstd::prelude::*;

verus! {

/// Identifier of the serial service.
pub const SERVICE_UUID: u128 = 0x01ff0100ba5ef4ee5ca1eb1e5e4b1ce0;

/// Identifier of the write-only characteristic that takes outbound bytes.
pub const TX_CHARACTERISTIC_UUID: u128 = 0x01ff0101ba5ef4ee5ca1eb1e5e4b1ce0;

/// Identifier of the read-only characteristic that gives inbound bytes.
pub const RX_CHARACTERISTIC_UUID: u128 = 0x01ff0101ba5ef4ee5ca1eb1e5e4b1ce1;

/// Bytes per write to the outbound characteristic.
pub const TX_CHARACTERISTIC_SIZE: usize = 1;

/// Most bytes that one read of the inbound characteristic returns.
pub const RX_CHARACTERISTIC_SIZE: usize = 244;

/// The byte written for a character: the low eight bits of its code point.
pub open spec fn low_byte(c: char) -> u8 {
    c as u8
}

/// How many writes of `size` bytes carry `len` characters.
pub open spec fn chunk_count(len: int, size: int) -> int {
    (len + size - 1) / size
}

/// The byte at `offset` of write number `chunk`: the character at that place
/// of the text, or zero past its end.
pub open spec fn chunk_byte(data: Seq<char>, size: int, chunk: int, offset: int) -> u8 {
    let at = chunk * size + offset;
    if at < data.len() {
        low_byte(data[at])
    } else {
        0
    }
}

/// `data` cut into writes of `size` bytes, the last one padded with zeros.
pub open spec fn chunks_of(data: Seq<char>, size: int) -> Seq<Seq<u8>> {
    Seq::new(
        chunk_count(data.len() as int, size) as nat,
        |i: int| Seq::new(size as nat, |j: int| chunk_byte(data, size, i, j)),
    )
}

/// The view of a vector of byte vectors.
pub open spec fn chunks_view(chunks: Vec<Vec<u8>>) -> Seq<Seq<u8>> {
    Seq::new(chunks@.len(), |i: int| chunks@[i]@)
}

proof fn lemma_chunk_progress(start: int, count: int, len: int, size: int)
    requires
        size > 0,
        0 <= count,
        start == count * size,
        start < len,
    ensures
        (count + 1) * size == start + size,
        count < chunk_count(len, size),
        start + size >= len ==> chunk_count(len, size) == count + 1,
{
    assert((count + 1) * size == count * size + size) by (nonlinear_arith);
    assert(count < (len + size - 1) / size) by (nonlinear_arith)
        requires
            size > 0,
            0 <= count,
            count * size < len,
    ;
    if start + size >= len {
        assert((len + size - 1) / size == count + 1) by (nonlinear_arith)
            requires
                size > 0,
                0 <= count,
                count * size < len,
                count * size + size >= len,
        ;
    }
}

/// Cuts `data` into writes of `size` bytes each, in order, the last one
/// padded with zeros. An empty text gives no write.
pub fn chunks(data: &str, size: usize) -> (r: Vec<Vec<u8>>)
    requires
        size > 0,
    ensures
        chunks_view(r) == chunks_of(data@, size as int),
{
    let chars = to_chars(data);
    let n = chars.len();
    let mut out: Vec<Vec<u8>> = Vec::new();
    let mut start: usize = 0;
    assert(chunk_count(0, size as int) == 0) by (nonlinear_arith)
        requires
            size > 0,
    ;
    while start < n
        invariant
            size > 0,
            chars@ == data@,
            n == chars@.len(),
            start <= n,
            start < n ==> start == out@.len() * size,
            start == n ==> out@.len() == chunk_count(n as int, size as int),
            forall|i: int| 0 <= i < out@.len() ==> (#[trigger] out@[i])@.len() == size,
            forall|i: int, j: int|
                0 <= i < out@.len() && 0 <= j < size ==> #[trigger] out@[i]@[j] == chunk_byte(
                    data@,
                    size as int,
                    i,
                    j,
                ),
        decreases n - start,
    {
        let ghost index = out@.len() as int;
        let mut chunk: Vec<u8> = Vec::new();
        let mut j: usize = 0;
        while j < size
            invariant
                j <= size,
                start < n,
                n == chars@.len(),
                chars@ == data@,
                start == index * size,
                chunk@.len() == j,
                forall|k: int|
                    0 <= k < j ==> #[trigger] chunk@[k] == chunk_byte(data@, size as int, index, k),
            decreases size - j,
        {
            let byte = if j < n - start {
                chars[start + j] as u8
            } else {
                0u8
            };
            chunk.push(byte);
            j += 1;
        }
        proof {
            lemma_chunk_progress(start as int, index, n as int, size as int);
        }
        out.push(chunk);
        start = if n - start <= size {
            n
        } else {
            start + size
        };
    }
    assert forall|i: int| 0 <= i < out@.len() implies #[trigger] chunks_view(out)[i] == chunks_of(
        data@,
        size as int,
    )[i] by {
        assert(out@[i]@ =~= chunks_of(data@, size as int)[i]);
    }
    assert(chunks_view(out) =~= chunks_of(data@, size as int));
    out
}

/// With one byte per write, a text of `n` characters is exactly `n` writes,
/// the `i`-th holding the `i`-th character.
pub proof fn lemma_single_byte_chunks(data: Seq<char>)
    ensures
        chunks_of(data, 1).len() == data.len(),
        forall|i: int|
            0 <= i < data.len() ==> #[trigger] chunks_of(data, 1)[i] == seq![low_byte(data[i])],
{
    assert forall|i: int| 0 <= i < data.len() implies #[trigger] chunks_of(data, 1)[i] == seq![
        low_byte(data[i]),
    ] by {
        assert(chunks_of(data, 1)[i] =~= seq![low_byte(data[i])]);
    }
}

/// Every write has the fixed size, and there are as many writes as it takes
/// to carry the text: none too many.
pub proof fn lemma_chunk_sizes(data: Seq<char>, size: int)
    requires
        size > 0,
    ensures
        forall|i: int|
            0 <= i < chunks_of(data, size).len() ==> (#[trigger] chunks_of(data, size)[i]).len()
                == size,
        chunks_of(data, size).len() * size >= data.len(),
        (chunks_of(data, size).len() - 1) * size < data.len() || data.len() == 0,
        data.len() == 0 ==> chunks_of(data, size).len() == 0,
{
    let len = data.len() as int;
    assert(0 <= (len + size - 1) / size) by (nonlinear_arith)
        requires
            size > 0,
            len >= 0,
    ;
    assert(((len + size - 1) / size) * size >= len) by (nonlinear_arith)
        requires
            size > 0,
            len >= 0,
    ;
    assert((((len + size - 1) / size) - 1) * size < len || len == 0) by (nonlinear_arith)
        requires
            size > 0,
            len >= 0,
    ;
    assert(len == 0 ==> (len + size - 1) / size == 0) by (nonlinear_arith)
        requires
            size > 0,
    ;
}

/// What one inbound read does to the kept value, and what it reports: a
/// read equal to the kept value reports no data; any other read is reported
/// as text. Either way the read is the value kept afterwards.
pub open spec fn accept_spec(previous: Seq<u8>, raw: Seq<u8>) -> (Seq<u8>, Option<Seq<char>>) {
    if raw == previous {
        (raw, None)
    } else {
        (raw, Some(text_of(raw)))
    }
}

/// Of two reads in a row that return the same bytes, the second reports no
/// data, whatever was kept before the first.
pub proof fn lemma_repeated_read(previous: Seq<u8>, raw: Seq<u8>)
    ensures
        accept_spec(accept_spec(previous, raw).0, raw).1 is None,
        accept_spec(accept_spec(previous, raw).0, raw).0 == raw,
{
}

/// The most recent inbound read, kept to tell a new value from a repeated
/// one.
#[derive(Debug)]
pub struct ChunkBuffer {
    previous: Vec<u8>,
}

impl View for ChunkBuffer {
    type V = Seq<u8>;

    closed spec fn view(&self) -> Seq<u8> {
        self.previous@
    }
}

fn same_bytes(a: &[u8], b: &[u8]) -> (r: bool)
    ensures
        r == (a@ == b@),
{
    if a.len() != b.len() {
        return false;
    }
    let mut i: usize = 0;
    while i < a.len()
        invariant
            a@.len() == b@.len(),
            i <= a@.len(),
            forall|k: int| 0 <= k < i ==> a@[k] == b@[k],
        decreases a@.len() - i,
    {
        if a[i] != b[i] {
            return false;
        }
        i += 1;
    }
    assert(a@ =~= b@);
    true
}

impl ChunkBuffer {
    /// A buffer that has seen no read yet; it holds the empty value.
    pub fn new() -> (r: Self)
        ensures
            r@ == Seq::<u8>::empty(),
    {
        ChunkBuffer { previous: Vec::new() }
    }

    /// Forgets the last read.
    pub fn clear(&mut self)
        ensures
            final(self)@ == Seq::<u8>::empty(),
    {
        self.previous.clear();
    }

    /// Takes one read of the inbound characteristic. A read equal to the one
    /// before it reports no data; any other read is reported as text and
    /// becomes the value to compare the next read with.
    pub fn accept(&mut self, raw: Vec<u8>) -> (r: Option<String>)
        ensures
            final(self)@ == accept_spec(old(self)@, raw@).0,
            match accept_spec(old(self)@, raw@).1 {
                Some(text) => r matches Some(got) && got@ == text,
                None => r is None,
            },
    {
        if same_bytes(raw.as_slice(), self.previous.as_slice()) {
            return None;
        }
        let text = bytes_to_text(raw.as_slice(), 0, raw.len());
        assert(raw@.subrange(0, raw@.len() as int) =~= raw@);
        self.previous = raw;
        Some(text)
    }
}

} // verus!
