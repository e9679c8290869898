//! Positions as the editor protocol gives them, and what they mean on a
//! sequence of characters.

use vstd::prelude::*;

verus! {

/// A place in a document: a zero-based line, and a column counted in UTF-16
/// code units from the start of that line.
#[derive(Clone, Copy, PartialEq, Eq, Structural, Debug)]
pub struct Position {
    pub line: u32,
    pub character: u32,
}

/// A half-open span `[start, end)` between two positions.
#[derive(Clone, Copy, PartialEq, Eq, Structural, Debug)]
pub struct Range {
    pub start: Position,
    pub end: Position,
}

impl Position {
    pub fn new(line: u32, character: u32) -> (p: Position)
        ensures
            p.line == line,
            p.character == character,
    {
        Position { line, character }
    }
}

impl Range {
    pub fn new(start: Position, end: Position) -> (r: Range)
        ensures
            r.start == start,
            r.end == end,
    {
        Range { start, end }
    }

    /// The empty range at `p`.
    pub fn collapsed(p: Position) -> (r: Range)
        ensures
            r.start == p,
            r.end == p,
    {
        Range { start: p, end: p }
    }
}

/// Whether a line break ends at index `i` of `s`. LF, VT, FF, NEL, LS and PS
/// each end a line; so does CR, unless an LF follows it, in which case the
/// pair counts as one break that ends at the LF.
pub open spec fn is_line_break_at(s: Seq<char>, i: int) -> bool {
    let c = s[i];
    ||| c == '\n'
    ||| c == '\u{0B}'
    ||| c == '\u{0C}'
    ||| c == '\u{85}'
    ||| c == '\u{2028}'
    ||| c == '\u{2029}'
    ||| (c == '\r' && (i + 1 >= s.len() || s[i + 1] != '\n'))
}

/// The number of line breaks in `s`; a text has one line more than that.
pub open spec fn line_break_count(s: Seq<char>) -> nat
    decreases s.len(),
{
    if s.len() == 0 {
        0
    } else {
        line_break_count(s.drop_first()) + if is_line_break_at(s, 0) {
            1nat
        } else {
            0nat
        }
    }
}

/// The character index at which line `line` of `s` begins.
pub open spec fn line_start(s: Seq<char>, line: nat) -> nat
    decreases s.len(),
{
    if line == 0 || s.len() == 0 {
        0
    } else if is_line_break_at(s, 0) {
        1 + line_start(s.drop_first(), (line - 1) as nat)
    } else {
        1 + line_start(s.drop_first(), line)
    }
}

/// The character index at which the text of line `line` of `s` ends, before
/// its line break (an LF after a CR ends the pair).
pub open spec fn line_end(s: Seq<char>, line: nat) -> nat {
    if line >= line_break_count(s) {
        s.len()
    } else {
        let n = line_start(s, line + 1);
        if n >= 2 && s[n - 2] == '\r' && s[n - 1] == '\n' {
            (n - 2) as nat
        } else {
            (n - 1) as nat
        }
    }
}

/// How many UTF-16 code units encode `c`.
pub open spec fn utf16_width(c: char) -> nat {
    if (c as u32) >= 0x10000u32 {
        2
    } else {
        1
    }
}

/// How many UTF-16 code units encode `s`.
pub open spec fn utf16_len(s: Seq<char>) -> nat
    decreases s.len(),
{
    if s.len() == 0 {
        0
    } else {
        utf16_width(s[0]) + utf16_len(s.drop_first())
    }
}

/// The index of the character of `s` to which UTF-16 code unit `u` belongs;
/// `s.len()` when `u` is the total length.
pub open spec fn utf16_to_char(s: Seq<char>, u: int) -> nat
    decreases s.len(),
{
    if s.len() == 0 || u < utf16_width(s[0]) {
        0
    } else {
        1 + utf16_to_char(s.drop_first(), u - utf16_width(s[0]))
    }
}

/// The character index that `p` names in `s`, if `s` has that line and the
/// column does not run past the end of the line's text.
pub open spec fn char_offset(s: Seq<char>, p: Position) -> Option<nat> {
    if p.line > line_break_count(s) {
        None
    } else {
        let u = utf16_len(s.take(line_start(s, p.line as nat) as int)) + p.character;
        if u > utf16_len(s.take(line_end(s, p.line as nat) as int)) {
            None
        } else {
            Some(utf16_to_char(s, u))
        }
    }
}

/// The character indices that `r` spans in `s`, if both ends are in the text
/// and the start does not come after the end.
pub open spec fn range_offsets(s: Seq<char>, r: Range) -> Option<(nat, nat)> {
    match (char_offset(s, r.start), char_offset(s, r.end)) {
        (Some(a), Some(b)) => if a <= b {
            Some((a, b))
        } else {
            None
        },
        _ => None,
    }
}

/// `s` with `[start, end)` replaced by `t`.
pub open spec fn splice(s: Seq<char>, start: int, end: int, t: Seq<char>) -> Seq<char> {
    s.take(start) + t + s.skip(end)
}

pub proof fn lemma_line_start_bound(s: Seq<char>, line: nat)
    ensures
        line_start(s, line) <= s.len(),
    decreases s.len(),
{
    if line != 0 && s.len() != 0 {
        if is_line_break_at(s, 0) {
            lemma_line_start_bound(s.drop_first(), (line - 1) as nat);
        } else {
            lemma_line_start_bound(s.drop_first(), line);
        }
    }
}

/// A line after the first begins past the first character.
pub proof fn lemma_line_start_after_first(s: Seq<char>, line: nat)
    requires
        1 <= line <= line_break_count(s),
    ensures
        1 <= line_start(s, line),
{
}

/// A prefix takes no more UTF-16 code units than the whole.
pub proof fn lemma_utf16_len_take(s: Seq<char>, i: int)
    requires
        0 <= i <= s.len(),
    ensures
        utf16_len(s.take(i)) <= utf16_len(s),
    decreases s.len(),
{
    if i == 0 {
        assert(s.take(0) =~= Seq::<char>::empty());
    } else {
        assert(s.take(i).drop_first() =~= s.drop_first().take(i - 1));
        lemma_utf16_len_take(s.drop_first(), i - 1);
    }
}

pub proof fn lemma_utf16_to_char_bound(s: Seq<char>, u: int)
    ensures
        utf16_to_char(s, u) <= s.len(),
    decreases s.len(),
{
    if s.len() != 0 && u >= utf16_width(s[0]) {
        lemma_utf16_to_char_bound(s.drop_first(), u - utf16_width(s[0]));
    }
}

pub proof fn lemma_char_offset_bound(s: Seq<char>, p: Position)
    ensures
        char_offset(s, p) matches Some(o) ==> o <= s.len(),
{
    let u = utf16_len(s.take(line_start(s, p.line as nat) as int)) + p.character;
    lemma_utf16_to_char_bound(s, u);
}

} // verus!
