//! Line assembly for a serial transport that hands over its bytes in pieces.
//!
//! The buffer keeps what has arrived of a line until its terminator arrives;
//! a poll that brings no terminator reports no data and loses nothing.

use crate::text::{bytes_to_text, text_of};
use vstd::prelude::*;

verus! {

/// A byte that ends a line: line feed or carriage return.
pub open spec fn is_line_end(byte: u8) -> bool {
    byte == 10 || byte == 13
}

/// The first position at or after `from` at which `bytes` holds a line end,
/// or the length of `bytes` when there is none.
pub open spec fn first_line_end(bytes: Seq<u8>, from: int) -> int
    decreases bytes.len() - from,
{
    if from >= bytes.len() {
        bytes.len() as int
    } else if is_line_end(bytes[from]) {
        from
    } else {
        first_line_end(bytes, from + 1)
    }
}

/// True when `bytes` holds no line end before position `to`.
pub open spec fn no_line_end_before(bytes: Seq<u8>, from: int, to: int) -> bool {
    forall|i: int| from <= i < to ==> !is_line_end(#[trigger] bytes[i])
}

/// `first_line_end` is `k` when nothing in `from..k` ends a line and `k`
/// does, or is the end.
pub proof fn lemma_first_line_end(bytes: Seq<u8>, from: int, k: int)
    requires
        0 <= from <= k <= bytes.len(),
        no_line_end_before(bytes, from, k),
        k == bytes.len() || is_line_end(bytes[k]),
    ensures
        first_line_end(bytes, from) == k,
    decreases k - from,
{
    if from < k {
        assert(!is_line_end(bytes[from]));
        lemma_first_line_end(bytes, from + 1, k);
    }
}

/// `first_line_end` lies in `from..=len`, nothing before it ends a line, and
/// it ends a line unless it is the length.
pub proof fn lemma_first_line_end_result(bytes: Seq<u8>, from: int)
    requires
        0 <= from <= bytes.len(),
    ensures
        from <= first_line_end(bytes, from) <= bytes.len(),
        no_line_end_before(bytes, from, first_line_end(bytes, from)),
        first_line_end(bytes, from) < bytes.len() ==> is_line_end(
            bytes[first_line_end(bytes, from)],
        ),
    decreases bytes.len() - from,
{
    if from < bytes.len() && !is_line_end(bytes[from]) {
        lemma_first_line_end_result(bytes, from + 1);
    }
}

/// What one poll does, given the bytes that are available to it.
pub struct PollOutcome {
    /// How many of the available bytes were taken.
    pub consumed: int,
    /// The buffer after the poll.
    pub pending: Seq<u8>,
    /// The completed line, without its terminator.
    pub line: Option<Seq<char>>,
}

/// The buffer and the line after asking for a completed line: a buffer that
/// ends in a line end gives up everything before it and is emptied; any
/// other buffer stays as it is.
pub open spec fn take_line_spec(pending: Seq<u8>) -> (Seq<u8>, Option<Seq<char>>) {
    if pending.len() > 0 && is_line_end(pending[pending.len() - 1]) {
        (Seq::<u8>::empty(), Some(text_of(pending.drop_last())))
    } else {
        (pending, None)
    }
}

/// One poll. With nothing available it reports no data and leaves the buffer
/// alone. Otherwise it takes bytes up to and including the first line end;
/// if there is one, the line is what was buffered followed by what was taken
/// before the line end, and the buffer is emptied; if there is none,
/// everything available joins the buffer and no data is reported.
pub open spec fn poll_spec(pending: Seq<u8>, available: Seq<u8>) -> PollOutcome {
    let k = first_line_end(available, 0);
    if available.len() == 0 {
        PollOutcome { consumed: 0, pending, line: None }
    } else if k < available.len() {
        PollOutcome {
            consumed: k + 1,
            pending: Seq::<u8>::empty(),
            line: Some(text_of(pending + available.subrange(0, k))),
        }
    } else {
        PollOutcome { consumed: available.len() as int, pending: pending + available, line: None }
    }
}

/// The pending-line buffer of a serial channel.
#[derive(Debug)]
pub struct SerialLineBuffer {
    pending: Vec<u8>,
}

impl View for SerialLineBuffer {
    type V = Seq<u8>;

    closed spec fn view(&self) -> Seq<u8> {
        self.pending@
    }
}

impl SerialLineBuffer {
    /// An empty buffer.
    pub fn new() -> (r: Self)
        ensures
            r@ == Seq::<u8>::empty(),
    {
        SerialLineBuffer { pending: Vec::new() }
    }

    /// The bytes of the line that is still incomplete.
    pub fn pending(&self) -> (r: &[u8])
        ensures
            r@ == self@,
    {
        self.pending.as_slice()
    }

    /// Appends one byte that was read. Returns true when the byte ends a
    /// line, which is when reading stops.
    pub fn accept(&mut self, byte: u8) -> (r: bool)
        ensures
            final(self)@ == old(self)@.push(byte),
            r == is_line_end(byte),
    {
        self.pending.push(byte);
        byte == 10 || byte == 13
    }

    /// Hands out the buffered line if its terminator has arrived.
    pub fn take_line(&mut self) -> (r: Option<String>)
        ensures
            final(self)@ == take_line_spec(old(self)@).0,
            match take_line_spec(old(self)@).1 {
                Some(line) => r matches Some(got) && got@ == line,
                None => r is None,
            },
    {
        let n = self.pending.len();
        if n == 0 {
            return None;
        }
        let last = self.pending[n - 1];
        if !(last == 10 || last == 13) {
            return None;
        }
        let line = bytes_to_text(self.pending.as_slice(), 0, n - 1);
        assert(self.pending@.subrange(0, n - 1) =~= self.pending@.drop_last());
        self.pending.clear();
        Some(line)
    }

    /// One poll over the bytes that the transport has available: returns how
    /// many of them were taken, and the completed line if there is one.
    pub fn poll(&mut self, available: &[u8]) -> (r: (usize, Option<String>))
        ensures
            r.0 == poll_spec(old(self)@, available@).consumed,
            final(self)@ == poll_spec(old(self)@, available@).pending,
            match poll_spec(old(self)@, available@).line {
                Some(line) => r.1 matches Some(got) && got@ == line,
                None => r.1 is None,
            },
    {
        if available.len() == 0 {
            return (0, None);
        }
        let mut i: usize = 0;
        let mut stop = false;
        while i < available.len() && !stop
            invariant
                i <= available@.len(),
                self@ == old(self)@ + available@.subrange(0, i as int),
                !stop ==> no_line_end_before(available@, 0, i as int),
                stop ==> i > 0 && no_line_end_before(available@, 0, i - 1) && is_line_end(
                    available@[i - 1],
                ),
            decreases available@.len() - i + if stop { 0int } else { 1int },
        {
            stop = self.accept(available[i]);
            i += 1;
            assert(self@ =~= old(self)@ + available@.subrange(0, i as int));
        }
        proof {
            if stop {
                lemma_first_line_end(available@, 0, i - 1);
                assert(self@.drop_last() =~= old(self)@ + available@.subrange(0, i - 1));
            } else {
                lemma_first_line_end(available@, 0, i as int);
                assert(available@.subrange(0, i as int) =~= available@);
            }
        }
        let line = self.take_line();
        (i, line)
    }
}

/// A line that arrives in two pieces is completed by the second poll: the
/// first poll, on bytes without a line end, reports no data and keeps them;
/// the second returns what was kept followed by what it takes before the
/// line end.
pub proof fn lemma_poll_resumes(pending: Seq<u8>, first: Seq<u8>, second: Seq<u8>)
    requires
        no_line_end_before(first, 0, first.len() as int),
    ensures
        poll_spec(pending, first).line is None,
        poll_spec(pending, first).pending == pending + first,
        poll_spec(pending, first).consumed == first.len(),
        ({
            let k = first_line_end(second, 0);
            k < second.len() ==> poll_spec(poll_spec(pending, first).pending, second).line == Some(
                text_of(pending + first + second.subrange(0, k)),
            ) && poll_spec(poll_spec(pending, first).pending, second).pending == Seq::<u8>::empty()
        }),
{
    lemma_first_line_end(first, 0, first.len() as int);
    if first.len() == 0 {
        assert(pending + first =~= pending);
    }
    lemma_first_line_end_result(second, 0);
}

/// A poll with nothing available reports no data and changes nothing.
pub proof fn lemma_poll_nothing_available(pending: Seq<u8>)
    ensures
        poll_spec(pending, Seq::<u8>::empty()).line is None,
        poll_spec(pending, Seq::<u8>::empty()).pending == pending,
        poll_spec(pending, Seq::<u8>::empty()).consumed == 0,
{
}

} // verus!
