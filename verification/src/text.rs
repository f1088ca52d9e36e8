//! Small helpers for moving between `str`/`String` and sequences of
//! characters, and for ASCII case folding.

use vstd::prelude::*;
use vstd::std_specs::iter::IteratorSpec;

verus! {

/// `String::push` appends exactly one character to the end of the string.
///
/// This states what the standard library documents for `push`; nothing else
/// about the string changes.
pub assume_specification[ String::push ](s: &mut String, ch: char)
    ensures
        final(s)@ == old(s)@.push(ch),
;

/// The ASCII upper-case form of a character: `a..=z` map to `A..=Z`, every
/// other character is unchanged.
pub open spec fn ascii_upper(c: char) -> char {
    if 'a' <= c && c <= 'z' {
        ((c as u8) - 32) as char
    } else {
        c
    }
}

/// A sequence of characters with every element ASCII upper-cased.
pub open spec fn ascii_upper_seq(s: Seq<char>) -> Seq<char> {
    Seq::new(s.len(), |i: int| ascii_upper(s[i]))
}

/// True when no element of `s` is an ASCII lower-case letter.
pub open spec fn has_no_ascii_lower(s: Seq<char>) -> bool {
    forall|i: int| 0 <= i < s.len() ==> !('a' <= #[trigger] s[i] && s[i] <= 'z')
}

/// Upper-casing a sequence without lower-case letters changes nothing.
pub proof fn lemma_upper_of_upper(s: Seq<char>)
    requires
        has_no_ascii_lower(s),
    ensures
        ascii_upper_seq(s) == s,
{
    assert(ascii_upper_seq(s) =~= s);
}

/// Upper-cases a single character.
pub fn to_ascii_upper(c: char) -> (r: char)
    ensures
        r == ascii_upper(c),
{
    if 'a' <= c && c <= 'z' {
        ((c as u8) - 32) as char
    } else {
        c
    }
}

/// Collects the characters of a string slice.
pub fn to_chars(s: &str) -> (out: Vec<char>)
    ensures
        out@ == s@,
{
    let mut out: Vec<char> = Vec::new();
    let mut it = s.chars();
    loop
        invariant
            out@ + it.remaining() == s@,
        ensures
            out@ == s@,
        decreases s@.len() - out@.len(),
    {
        match it.next() {
            Some(c) => {
                out.push(c);
            },
            None => {
                break ;
            },
        }
    }
    out
}

/// Builds a string from characters.
pub fn from_chars(chars: &[char]) -> (out: String)
    ensures
        out@ == chars@,
{
    let out = substring(chars, 0, chars.len());
    assert(chars@.subrange(0, chars@.len() as int) =~= chars@);
    out
}

/// Builds a string from the characters `chars[from..to]`.
pub(crate) fn substring(chars: &[char], from: usize, to: usize) -> (out: String)
    requires
        from <= to <= chars@.len(),
    ensures
        out@ == chars@.subrange(from as int, to as int),
{
    let mut out = String::new();
    let mut i: usize = from;
    while i < to
        invariant
            from <= i <= to <= chars@.len(),
            out@ == chars@.subrange(from as int, i as int),
        decreases to - i,
    {
        out.push(chars[i]);
        i += 1;
    }
    out
}

/// Compares `chars[from..to]`, ASCII upper-cased, with `name`.
pub(crate) fn eq_ignore_ascii_case(chars: &[char], from: usize, to: usize, name: &str) -> (r: bool)
    requires
        from <= to <= chars@.len(),
    ensures
        r == (ascii_upper_seq(chars@.subrange(from as int, to as int)) == name@),
{
    let want = to_chars(name);
    let ghost have = ascii_upper_seq(chars@.subrange(from as int, to as int));
    if want.len() != to - from {
        return false;
    }
    let mut i: usize = 0;
    while i < want.len()
        invariant
            from <= to <= chars@.len(),
            want@ == name@,
            want@.len() == to - from,
            i <= want@.len(),
            have == ascii_upper_seq(chars@.subrange(from as int, to as int)),
            forall|j: int| 0 <= j < i ==> have[j] == want@[j],
        decreases want@.len() - i,
    {
        if to_ascii_upper(chars[from + i]) != want[i] {
            assert(have[i as int] != want@[i as int]);
            return false;
        }
        i += 1;
    }
    assert(have =~= want@);
    true
}

/// Bytes read as text, one character per byte: byte `b` is the character
/// with code point `b`.
pub open spec fn text_of(bytes: Seq<u8>) -> Seq<char> {
    Seq::new(bytes.len(), |i: int| bytes[i] as char)
}

/// Reads bytes as text, one character per byte.
pub fn bytes_to_string(bytes: &[u8]) -> (out: String)
    ensures
        out@ == text_of(bytes@),
{
    let out = bytes_to_text(bytes, 0, bytes.len());
    assert(bytes@.subrange(0, bytes@.len() as int) =~= bytes@);
    out
}

/// Reads `bytes[from..to]` as text, one character per byte.
pub(crate) fn bytes_to_text(bytes: &[u8], from: usize, to: usize) -> (out: String)
    requires
        from <= to <= bytes@.len(),
    ensures
        out@ == text_of(bytes@.subrange(from as int, to as int)),
{
    let mut out = String::new();
    let mut i: usize = from;
    while i < to
        invariant
            from <= i <= to <= bytes@.len(),
            out@ == text_of(bytes@.subrange(from as int, i as int)),
        decreases to - i,
    {
        out.push(bytes[i] as char);
        i += 1;
        assert(out@ =~= text_of(bytes@.subrange(from as int, i as int)));
    }
    assert(out@ =~= text_of(bytes@.subrange(from as int, to as int)));
    out
}

} // verus!
