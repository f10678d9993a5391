//! Counting the lines of a text given as bytes.
//!
//! A line is a run of bytes terminated by a newline, or the final
//! unterminated run: the empty text has no line, and a trailing newline
//! does not open one more.  On UTF-8 text this agrees with the standard
//! line iterator, since the newline byte occurs in no multi-byte
//! character.

use vstd::prelude::*;

verus! {

/// The newline byte.
pub const NEWLINE: u8 = 10;

/// How many newline bytes a text holds.
pub open spec fn spec_newline_count(s: Seq<u8>) -> nat
    decreases s.len(),
{
    if s.len() == 0 {
        0
    } else {
        spec_newline_count(s.drop_last()) + if s.last() == NEWLINE {
            1nat
        } else {
            0nat
        }
    }
}

/// How many lines a text holds: one per newline, and one more for a
/// non-empty final run without one.
pub open spec fn spec_line_count(s: Seq<u8>) -> nat {
    spec_newline_count(s) + if s.len() > 0 && s.last() != NEWLINE {
        1nat
    } else {
        0nat
    }
}

/// A text holds at most one newline per byte.
proof fn lemma_newline_count_le_len(s: Seq<u8>)
    ensures
        spec_newline_count(s) <= s.len(),
    decreases s.len(),
{
    if s.len() > 0 {
        lemma_newline_count_le_len(s.drop_last());
    }
}

/// Counts the lines of `text`.
pub fn count_lines(text: &[u8]) -> (n: usize)
    ensures
        n == spec_line_count(text@),
{
    let len = text.len();
    let mut newlines: usize = 0;
    let mut i: usize = 0;
    while i < len
        invariant
            i <= len,
            len == text@.len(),
            newlines == spec_newline_count(text@.take(i as int)),
            newlines <= i,
        decreases len - i,
    {
        proof {
            assert(text@.take(i + 1).drop_last() =~= text@.take(i as int));
            assert(text@.take(i + 1).last() == text@[i as int]);
        }
        if text[i] == NEWLINE {
            newlines = newlines + 1;
        }
        i = i + 1;
    }
    proof {
        assert(text@.take(len as int) =~= text@);
    }
    if len > 0 && text[len - 1] != NEWLINE {
        proof {
            lemma_newline_count_le_len(text@.drop_last());
            assert(text@.last() == text@[len - 1]);
        }
        newlines + 1
    } else {
        newlines
    }
}

} // verus!
