//! Splitting source text into words, and reading numbers out of them.

use vstd::prelude::*;
use vstd::utf8::{
    is_char_boundary, is_char_boundary_iff_not_is_continuation_byte, valid_utf8, valid_utf8_split,
};

verus! {

/// The classes of bytes that the grammar tells apart.
#[derive(Clone, Copy, Debug, PartialEq, Eq, Structural)]
pub enum ByteClass {
    /// A space or a tab: separates words on one line.
    Blank,
    /// Any whitespace, line ends included: separates instructions.
    Space,
    /// Anything that is not whitespace.
    Word,
}

/// Whether `byte` is a space or a tab.
pub open spec fn is_blank(byte: u8) -> bool {
    byte == 32 || byte == 9
}

/// Whether `byte` ends a line.
pub open spec fn is_line_end(byte: u8) -> bool {
    byte == 10 || byte == 13
}

impl ByteClass {
    /// Whether `byte` belongs to the class.
    pub open spec fn holds(self, byte: u8) -> bool {
        match self {
            ByteClass::Blank => is_blank(byte),
            ByteClass::Space => is_blank(byte) || is_line_end(byte),
            ByteClass::Word => !(is_blank(byte) || is_line_end(byte)),
        }
    }

    /// Whether `byte` belongs to the class.
    pub fn contains(&self, byte: u8) -> (r: bool)
        ensures
            r == self.holds(byte),
    {
        let blank = byte == 32 || byte == 9;
        let line_end = byte == 10 || byte == 13;
        match self {
            ByteClass::Blank => blank,
            ByteClass::Space => blank || line_end,
            ByteClass::Word => !(blank || line_end),
        }
    }
}

/// The first position at or after `pos` whose byte is not in `class`, or
/// the length of `src` if there is none.
pub open spec fn skip(src: Seq<u8>, pos: int, class: ByteClass) -> int
    decreases src.len() - pos,
{
    if 0 <= pos < src.len() && class.holds(src[pos]) {
        skip(src, pos + 1, class)
    } else {
        pos
    }
}

/// A skip never moves backwards and never leaves the source.
pub proof fn lemma_skip_bounds(src: Seq<u8>, pos: int, class: ByteClass)
    requires
        0 <= pos <= src.len(),
    ensures
        pos <= skip(src, pos, class) <= src.len(),
    decreases src.len() - pos,
{
    if pos < src.len() && class.holds(src[pos]) {
        lemma_skip_bounds(src, pos + 1, class);
    }
}

/// A skip runs over bytes of its class only, and stops at the end of the
/// source or at a byte that is not of the class.
pub proof fn lemma_skip_stops(src: Seq<u8>, pos: int, class: ByteClass)
    requires
        0 <= pos <= src.len(),
    ensures
        skip(src, pos, class) == src.len() || !class.holds(src[skip(src, pos, class)]),
        forall|i: int| pos <= i < skip(src, pos, class) ==> class.holds(#[trigger] src[i]),
    decreases src.len() - pos,
{
    if pos < src.len() && class.holds(src[pos]) {
        lemma_skip_stops(src, pos + 1, class);
    }
}

/// Runs over the bytes of `class` that start at `pos`.
pub fn skip_class(src: &[u8], pos: usize, class: ByteClass) -> (end: usize)
    requires
        pos <= src@.len(),
    ensures
        end == skip(src@, pos as int, class),
        pos <= end <= src@.len(),
{
    let mut i: usize = pos;
    while i < src.len() && class.contains(src[i])
        invariant
            pos <= i <= src@.len(),
            skip(src@, pos as int, class) == skip(src@, i as int, class),
        decreases src@.len() - i,
    {
        i += 1;
    }
    i
}

/// The number that the digits from `pos` up to `end` spell after the
/// digits that gave `acc`, or `None` if a byte there is no digit or the
/// number grows beyond `limit`.
pub open spec fn scan_digits(src: Seq<u8>, pos: int, end: int, acc: nat, limit: nat) -> Option<nat>
    decreases end - pos,
{
    if pos >= end {
        Some(acc)
    } else if 0 <= pos < src.len() && 48 <= src[pos] <= 57 && acc * 10 + (src[pos] - 48) <= limit {
        scan_digits(src, pos + 1, end, (acc * 10 + (src[pos] - 48)) as nat, limit)
    } else {
        None
    }
}

/// The decimal number written from `start` up to `end`, if that range is
/// one or more digits and the number is at most `limit`.
pub open spec fn number_at(src: Seq<u8>, start: int, end: int, limit: nat) -> Option<nat> {
    if start < end {
        scan_digits(src, start, end, 0, limit)
    } else {
        None
    }
}

/// Reads the decimal number written from `start` up to `end`.
pub fn read_number(src: &[u8], start: usize, end: usize, limit: u32) -> (r: Option<u32>)
    requires
        start <= end <= src@.len(),
    ensures
        r matches Some(n) ==> number_at(src@, start as int, end as int, limit as nat) == Some(
            n as nat,
        ),
        r is None ==> number_at(src@, start as int, end as int, limit as nat) is None,
{
    if start >= end {
        return None;
    }
    let mut acc: u32 = 0;
    let mut i: usize = start;
    while i < end
        invariant
            start <= i <= end <= src@.len(),
            acc <= limit,
            scan_digits(src@, start as int, end as int, 0, limit as nat) == scan_digits(
                src@,
                i as int,
                end as int,
                acc as nat,
                limit as nat,
            ),
        decreases end - i,
    {
        let byte: u8 = src[i];
        if byte < 48 || byte > 57 {
            return None;
        }
        let next: u64 = (acc as u64) * 10 + ((byte - 48) as u64);
        if next > limit as u64 {
            return None;
        }
        acc = next as u32;
        i += 1;
    }
    Some(acc)
}

/// Whether the word from `start` up to `end` is the three bytes given.
pub open spec fn word_is3(src: Seq<u8>, start: int, end: int, a: u8, b: u8, c: u8) -> bool {
    &&& 0 <= start
    &&& end == start + 3
    &&& end <= src.len()
    &&& src[start] == a
    &&& src[start + 1] == b
    &&& src[start + 2] == c
}

/// Whether the word from `start` up to `end` is the four bytes given.
pub open spec fn word_is4(src: Seq<u8>, start: int, end: int, a: u8, b: u8, c: u8, d: u8) -> bool {
    &&& 0 <= start
    &&& end == start + 4
    &&& end <= src.len()
    &&& src[start] == a
    &&& src[start + 1] == b
    &&& src[start + 2] == c
    &&& src[start + 3] == d
}

/// Whether the word from `start` up to `end` is the five bytes given.
pub open spec fn word_is5(
    src: Seq<u8>,
    start: int,
    end: int,
    a: u8,
    b: u8,
    c: u8,
    d: u8,
    e: u8,
) -> bool {
    &&& 0 <= start
    &&& end == start + 5
    &&& end <= src.len()
    &&& src[start] == a
    &&& src[start + 1] == b
    &&& src[start + 2] == c
    &&& src[start + 3] == d
    &&& src[start + 4] == e
}

/// Whether the word from `start` up to `end` is the three bytes given.
pub fn has_word3(src: &[u8], start: usize, end: usize, a: u8, b: u8, c: u8) -> (r: bool)
    requires
        start <= end <= src@.len(),
    ensures
        r == word_is3(src@, start as int, end as int, a, b, c),
{
    end - start == 3 && src[start] == a && src[start + 1] == b && src[start + 2] == c
}

/// Whether the word from `start` up to `end` is the four bytes given.
pub fn has_word4(src: &[u8], start: usize, end: usize, a: u8, b: u8, c: u8, d: u8) -> (r: bool)
    requires
        start <= end <= src@.len(),
    ensures
        r == word_is4(src@, start as int, end as int, a, b, c, d),
{
    end - start == 4 && src[start] == a && src[start + 1] == b && src[start + 2] == c && src[start
        + 3] == d
}

/// Whether the word from `start` up to `end` is the five bytes given.
pub fn has_word5(
    src: &[u8],
    start: usize,
    end: usize,
    a: u8,
    b: u8,
    c: u8,
    d: u8,
    e: u8,
) -> (r: bool)
    requires
        start <= end <= src@.len(),
    ensures
        r == word_is5(src@, start as int, end as int, a, b, c, d, e),
{
    end - start == 5 && src[start] == a && src[start + 1] == b && src[start + 2] == c && src[start
        + 3] == d && src[start + 4] == e
}

/// Whether `pos` is a place where a word can start or end: an end of the
/// source, or next to a whitespace byte.
pub open spec fn at_word_edge(src: Seq<u8>, pos: int) -> bool {
    ||| pos == 0
    ||| pos == src.len()
    ||| 0 < pos < src.len() && (ByteClass::Space.holds(src[pos]) || ByteClass::Space.holds(
        src[pos - 1],
    ))
}

/// Text that is valid UTF-8 stays valid when it is cut at the edge of a
/// word: whitespace is never part of a longer character.
pub proof fn lemma_tail_is_valid_utf8(src: Seq<u8>, pos: int)
    requires
        valid_utf8(src),
        at_word_edge(src, pos),
    ensures
        valid_utf8(src.subrange(pos, src.len() as int)),
{
    if pos == 0 {
        assert(src.subrange(0, src.len() as int) =~= src);
    } else if pos == src.len() {
        assert(src.subrange(pos, src.len() as int).len() == 0);
    } else if ByteClass::Space.holds(src[pos]) {
        is_char_boundary_iff_not_is_continuation_byte(src, pos);
        valid_utf8_split(src, pos);
    } else {
        is_char_boundary_iff_not_is_continuation_byte(src, pos - 1);
        assert(is_char_boundary(src, pos - 1));
        valid_utf8_split(src, pos - 1);
        let rest = src.subrange(pos - 1, src.len() as int);
        assert(rest[0] == src[pos - 1]);
        assert(valid_utf8(rest));
        assert(rest.subrange(1, rest.len() as int) =~= src.subrange(pos, src.len() as int));
    }
}

/// The bytes of `src` from `pos` to its end.
pub fn tail(src: &[u8], pos: usize) -> (text: Vec<u8>)
    requires
        pos <= src@.len(),
    ensures
        text@ == src@.subrange(pos as int, src@.len() as int),
{
    let mut text: Vec<u8> = Vec::new();
    let mut i: usize = pos;
    while i < src.len()
        invariant
            pos <= i <= src@.len(),
            text@ == src@.subrange(pos as int, i as int),
        decreases src@.len() - i,
    {
        text.push(src[i]);
        proof {
            assert(text@ =~= src@.subrange(pos as int, i + 1));
        }
        i += 1;
    }
    text
}

} // verus!
