//! A text as lines, and the byte offsets of a range that is given by lines
//! and characters.

use vstd::prelude::*;
use vstd::string::*;
use vstd::utf8::is_char_boundary;
use crate::ids::as_position;

verus! {

/// The byte that ends a line.
pub const LINE_FEED: u8 = 10;

/// A text that ranges are taken from.
#[derive(Debug)]
pub struct Document<'str> {
    pub content: &'str str,
}

/// A range in a text: from a character of one line to a character of
/// another, lines and characters counted from zero and characters counted in
/// bytes.
#[derive(Clone, Copy, Debug, PartialEq, Eq, Structural)]
pub struct TextRange {
    pub start_line: u32,
    pub start_character: u32,
    pub end_line: u32,
    pub end_character: u32,
}

/// The number of line feeds among the first `pos` bytes.
pub open spec fn feeds_before(bytes: Seq<u8>, pos: int) -> nat
    decreases pos,
{
    if pos <= 0 {
        0
    } else {
        feeds_before(bytes, pos - 1) + if bytes[pos - 1] == LINE_FEED {
            1nat
        } else {
            0nat
        }
    }
}

/// A line starts at `pos`: at the start of the text or behind a line feed,
/// and before the end of the text.
pub open spec fn starts_line(bytes: Seq<u8>, pos: int) -> bool {
    0 <= pos < bytes.len() && (pos == 0 || bytes[pos - 1] == LINE_FEED)
}

/// The line with the number `line` starts at `pos`.
pub open spec fn line_at(bytes: Seq<u8>, line: nat, pos: int) -> bool {
    starts_line(bytes, pos) && feeds_before(bytes, pos) == line
}

/// Where the line with the given number starts, if the text has it.
pub open spec fn line_start(bytes: Seq<u8>, line: nat) -> Option<int> {
    if exists|pos: int| line_at(bytes, line, pos) {
        Some(choose|pos: int| line_at(bytes, line, pos))
    } else {
        None
    }
}

/// Where a range starts: at its character of its start line. It starts at
/// the start of the text where the text has no such line, or where the
/// start line comes behind the end line.
pub open spec fn range_start(bytes: Seq<u8>, range: TextRange) -> int {
    if range.start_line <= range.end_line && line_start(bytes, range.start_line as nat) is Some {
        line_start(bytes, range.start_line as nat)->0 + range.start_character
    } else {
        0
    }
}

/// Where a range ends: at its character of its end line, or at the end of
/// the text where the text has no such line.
pub open spec fn range_end(bytes: Seq<u8>, range: TextRange) -> int {
    match line_start(bytes, range.end_line as nat) {
        Some(pos) => pos + range.end_character,
        None => bytes.len() as int,
    }
}

/// The byte offsets of a range, where they lie in the text in this order and
/// each between two characters.
pub open spec fn range_offsets(bytes: Seq<u8>, range: TextRange) -> Option<(int, int)> {
    let start = range_start(bytes, range);
    let end = range_end(bytes, range);
    if start <= end <= bytes.len() && is_char_boundary(bytes, start) && is_char_boundary(
        bytes,
        end,
    ) {
        Some((start, end))
    } else {
        None
    }
}

/// The count of line feeds never falls along the text.
pub proof fn lemma_feeds_grow(bytes: Seq<u8>, a: int, b: int)
    requires
        a <= b,
    ensures
        feeds_before(bytes, a) <= feeds_before(bytes, b),
    decreases b - a,
{
    if a < b {
        lemma_feeds_grow(bytes, a, b - 1);
    }
}

/// A line starts at one place only.
pub proof fn lemma_line_start_is_unique(bytes: Seq<u8>, line: nat, pos: int)
    requires
        line_at(bytes, line, pos),
    ensures
        line_start(bytes, line) == Some(pos),
{
    let other = choose|other: int| line_at(bytes, line, other);
    if other < pos {
        lemma_feeds_grow(bytes, other, pos - 1);
    } else if pos < other {
        lemma_feeds_grow(bytes, pos, other - 1);
    }
}

/// The part of a text that a range names.
pub open spec fn range_bytes(bytes: Seq<u8>, range: TextRange) -> Option<Seq<u8>> {
    match range_offsets(bytes, range) {
        Some((start, end)) => Some(bytes.subrange(start, end)),
        None => None,
    }
}

/// The bytes of what may be a text.
pub open spec fn opt_bytes(r: Option<&str>) -> Option<Seq<u8>> {
    match r {
        Some(t) => Some(t.spec_bytes()),
        None => None,
    }
}

/// The offsets as machine integers.
pub open spec fn as_offsets(r: Option<(usize, usize)>) -> Option<(int, int)> {
    match r {
        Some((start, end)) => Some((start as int, end as int)),
        None => None,
    }
}

impl<'str> Document<'str> {
    /// A document of the given text.
    pub fn new(content: &'str str) -> (r: Document<'str>)
        ensures
            r.content@ == content@,
    {
        Document { content }
    }

    /// Where the line with the given number starts, if the text has it.
    pub fn find_line(&self, line: u32) -> (r: Option<usize>)
        ensures
            as_position(r) == line_start(self.content.spec_bytes(), line as nat),
            r matches Some(pos) ==> pos < self.content.spec_bytes().len(),
    {
        let bytes = self.content.as_bytes();
        let length: usize = bytes.len();
        let mut feeds: usize = 0;
        let mut pos: usize = 0;
        while pos < length
            invariant
                pos <= length,
                length == bytes@.len(),
                bytes@ == self.content.spec_bytes(),
                feeds == feeds_before(bytes@, pos as int),
                feeds <= pos,
                forall|p: int| 0 <= p < pos ==> !line_at(bytes@, line as nat, p),
            decreases length - pos,
        {
            let at_start = pos == 0 || bytes[pos - 1] == LINE_FEED;
            if at_start && feeds == line as usize {
                proof {
                    lemma_line_start_is_unique(bytes@, line as nat, pos as int);
                }
                return Some(pos);
            }
            if bytes[pos] == LINE_FEED {
                feeds = feeds + 1;
            }
            pos = pos + 1;
        }
        None
    }

    /// The byte offsets of a range in the text: none where the range lies
    /// outside the text, ends before it starts, or cuts a character.
    pub fn range_offsets(&self, range: TextRange) -> (r: Option<(usize, usize)>)
        ensures
            as_offsets(r) == range_offsets(self.content.spec_bytes(), range),
    {
        let length: usize = self.content.as_bytes().len();
        let start: usize = if range.start_line <= range.end_line {
            match self.find_line(range.start_line) {
                Some(pos) => {
                    if range.start_character as usize > length - pos {
                        return None;
                    }
                    pos + range.start_character as usize
                },
                None => 0,
            }
        } else {
            0
        };
        let end: usize = match self.find_line(range.end_line) {
            Some(pos) => {
                if range.end_character as usize > length - pos {
                    return None;
                }
                pos + range.end_character as usize
            },
            None => length,
        };
        if start <= end && self.content.is_char_boundary(start) && self.content.is_char_boundary(
            end,
        ) {
            Some((start, end))
        } else {
            None
        }
    }

    /// The part of the text that a range names: none where the range lies
    /// outside the text, ends before it starts, or cuts a character.
    pub fn range(&self, range: TextRange) -> (r: Option<&'str str>)
        ensures
            opt_bytes(r) == range_bytes(self.content.spec_bytes(), range),
    {
        match self.range_offsets(range) {
            Some((start, end)) => {
                let ghost bytes = self.content.spec_bytes();
                proof {
                    vstd::utf8::encode_utf8_valid_utf8(self.content@);
                    vstd::utf8::valid_utf8_split(bytes, start as int);
                }
                let (_, tail) = self.content.split_at(start);
                proof {
                    let rest = bytes.subrange(start as int, bytes.len() as int);
                    assert(tail.spec_bytes() == rest);
                    if end < bytes.len() {
                        if start < end {
                            vstd::utf8::is_char_boundary_iff_not_is_continuation_byte(
                                bytes,
                                end as int,
                            );
                            vstd::utf8::is_char_boundary_iff_not_is_continuation_byte(
                                rest,
                                end - start,
                            );
                        } else {
                            vstd::utf8::is_char_boundary_start_end_of_seq(rest);
                        }
                    } else {
                        vstd::utf8::is_char_boundary_start_end_of_seq(rest);
                    }
                }
                let (part, _) = tail.split_at(end - start);
                proof {
                    assert(part.spec_bytes() =~= bytes.subrange(start as int, end as int));
                }
                Some(part)
            },
            None => None,
        }
    }
}

} // verus!
