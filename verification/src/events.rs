//! The reed-switch event stream, line by line.
//!
//! The scanner writes one line per event: the index of the square whose
//! occupancy changed, in decimal. A line that holds `-1` marks the end of a
//! ply and lets the scanner flush. Blanks around the number are ignored, and
//! so are lines that hold nothing else.

use vstd::prelude::*;
use crate::square::Square;

verus! {

/// What one line of the event stream says.
#[derive(Clone, Copy, Debug, PartialEq, Eq, Hash, Structural)]
pub enum EventLine {
    /// Nothing but blanks.
    Blank,
    /// The end-of-ply mark `-1`.
    Flush,
    /// The occupancy of the square changed.
    Toggle(Square),
    /// Anything else: no number, or one that is no square.
    Malformed,
}

/// ASCII white space: blank, tab, line feed, vertical tab, form feed and
/// carriage return.
pub open spec fn is_blank(b: u8) -> bool {
    b == 32 || (9 <= b && b <= 13)
}

/// An ASCII digit.
pub open spec fn is_digit(b: u8) -> bool {
    48 <= b && b <= 57
}

/// The number of blanks at the start of the text.
pub open spec fn leading_blanks(text: Seq<u8>) -> nat
    decreases text.len(),
{
    if text.len() > 0 && is_blank(text[0]) {
        1 + leading_blanks(text.drop_first())
    } else {
        0
    }
}

/// The number of blanks at the end of the text.
pub open spec fn trailing_blanks(text: Seq<u8>) -> nat
    decreases text.len(),
{
    if text.len() > 0 && is_blank(text.last()) {
        1 + trailing_blanks(text.drop_last())
    } else {
        0
    }
}

/// The text without the blanks at its start and at its end.
pub open spec fn trimmed(text: Seq<u8>) -> Seq<u8> {
    if leading_blanks(text) + trailing_blanks(text) >= text.len() {
        Seq::empty()
    } else {
        text.subrange(leading_blanks(text) as int, text.len() - trailing_blanks(text))
    }
}

/// The number that a sequence of digits writes in decimal.
pub open spec fn decimal(digits: Seq<u8>) -> nat
    decreases digits.len(),
{
    if digits.len() == 0 {
        0
    } else {
        decimal(digits.drop_last()) * 10 + (digits.last() - 48) as nat
    }
}

/// The text consists of digits only.
pub open spec fn all_digits(text: Seq<u8>) -> bool {
    forall|i: int| 0 <= i < text.len() ==> is_digit(#[trigger] text[i])
}

/// The digits of a number written with or without a plus sign in front.
pub open spec fn unsigned_part(text: Seq<u8>) -> Seq<u8> {
    if text.len() > 0 && text[0] == 43 {
        text.drop_first()
    } else {
        text
    }
}

/// What a line of the event stream says.
pub open spec fn event_of(line: Seq<u8>) -> EventLine {
    let text = trimmed(line);
    let digits = unsigned_part(text);
    if text.len() == 0 {
        EventLine::Blank
    } else if text == seq![45u8, 49u8] {
        EventLine::Flush
    } else if digits.len() > 0 && all_digits(digits) && decimal(digits) < 64 {
        EventLine::Toggle(Square { index: decimal(digits) as u8 })
    } else {
        EventLine::Malformed
    }
}

proof fn lemma_leading_blanks(text: Seq<u8>, k: int)
    requires
        0 <= k <= text.len(),
        forall|i: int| 0 <= i < k ==> is_blank(#[trigger] text[i]),
        k == text.len() || !is_blank(text[k]),
    ensures
        leading_blanks(text) == k,
    decreases k,
{
    if k > 0 {
        let rest = text.drop_first();
        assert forall|i: int| 0 <= i < k - 1 implies is_blank(#[trigger] rest[i]) by {
        }
        lemma_leading_blanks(rest, k - 1);
    }
}

proof fn lemma_trailing_blanks(text: Seq<u8>, k: int)
    requires
        0 <= k <= text.len(),
        forall|i: int| k <= i < text.len() ==> is_blank(#[trigger] text[i]),
        k == 0 || !is_blank(text[k - 1]),
    ensures
        trailing_blanks(text) == text.len() - k,
    decreases text.len() - k,
{
    if k < text.len() {
        let rest = text.drop_last();
        assert forall|i: int| k <= i < rest.len() implies is_blank(#[trigger] rest[i]) by {
        }
        lemma_trailing_blanks(rest, k);
    }
}

/// Reads one line of the event stream.
///
/// The line is blank, the end-of-ply mark, or the index of a square written
/// in decimal, a plus sign in front allowed; everything else, a number from
/// 64 upwards included, is malformed.
pub fn parse_event_line(line: &[u8]) -> (event: EventLine)
    ensures
        event == event_of(line@),
{
    let mut start: usize = 0;
    while start < line.len() && is_blank_byte(line[start])
        invariant
            start <= line.len(),
            forall|i: int| 0 <= i < start ==> is_blank(#[trigger] line@[i]),
        decreases line.len() - start,
    {
        start += 1;
    }
    let mut end: usize = line.len();
    while end > start && is_blank_byte(line[end - 1])
        invariant
            start <= end <= line.len(),
            forall|i: int| end <= i < line.len() ==> is_blank(#[trigger] line@[i]),
        decreases end,
    {
        end -= 1;
    }
    proof {
        lemma_leading_blanks(line@, start as int);
        if start < end {
            lemma_trailing_blanks(line@, end as int);
        }
    }
    if start == end {
        return EventLine::Blank;
    }
    let ghost text = line@.subrange(start as int, end as int);
    if end - start == 2 && line[start] == 45 && line[start + 1] == 49 {
        assert(text =~= seq![45u8, 49u8]);
        return EventLine::Flush;
    }
    assert(text != seq![45u8, 49u8]) by {
        // they differ in length or in one of the two characters just tested
        if text.len() == 2 {
            assert(text[0] != 45u8 || text[1] != 49u8);
        }
    }
    let first: usize = if line[start] == 43 {
        start + 1
    } else {
        start
    };
    let ghost digits = line@.subrange(first as int, end as int);
    if first == end {
        return EventLine::Malformed;
    }
    let mut value: u32 = 0;
    let mut i: usize = first;
    while i < end
        invariant
            first <= i <= end <= line.len(),
            digits == line@.subrange(first as int, end as int),
            text == trimmed(line@),
            text.len() > 0,
            text != seq![45u8, 49u8],
            digits == unsigned_part(text),
            all_digits(digits.subrange(0, i - first)),
            value <= 64,
            value < 64 ==> value == decimal(digits.subrange(0, i - first)),
            value == 64 ==> decimal(digits.subrange(0, i - first)) >= 64,
        decreases end - i,
    {
        let b = line[i];
        if b < 48 || b > 57 {
            assert(!is_digit(digits[i - first]));
            return EventLine::Malformed;
        }
        proof {
            let shorter = digits.subrange(0, i - first);
            let longer = digits.subrange(0, i - first + 1);
            assert(longer.drop_last() =~= shorter);
            assert forall|k: int| 0 <= k < longer.len() implies is_digit(#[trigger] longer[k]) by {
                if k < shorter.len() {
                    assert(longer[k] == shorter[k]);
                }
            }
        }
        if value < 64 {
            value = value * 10 + (b - 48) as u32;
            if value > 64 {
                value = 64;
            }
        }
        i += 1;
    }
    proof {
        assert(digits.subrange(0, end - first) =~= digits);
    }
    if value < 64 {
        EventLine::Toggle(Square { index: value as u8 })
    } else {
        EventLine::Malformed
    }
}

fn is_blank_byte(b: u8) -> (blank: bool)
    ensures
        blank == is_blank(b),
{
    b == 32 || (9 <= b && b <= 13)
}

} // verus!
