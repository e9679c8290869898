//! The text buffer: a rope of characters, read and edited by character index,
//! with the protocol's positions mapped onto it.

use ropey::Rope;
use vstd::prelude::*;

use crate::text::{
    char_offset, lemma_char_offset_bound, lemma_line_start_after_first, lemma_line_start_bound,
    lemma_utf16_len_take, line_break_count, line_end, line_start, range_offsets, splice,
    utf16_len, utf16_to_char, Position, Range,
};

verus! {

#[verifier::external_type_specification]
#[verifier::external_body]
pub struct ExRope(Rope);

/// The characters that a rope holds, in order.
pub uninterp spec fn rope_chars(r: Rope) -> Seq<char>;

/// Relies on ropey's `Rope::from_str`: the rope holds the characters of `text`.
#[verifier::external_body]
fn rope_from_str(text: &str) -> (r: Rope)
    ensures
        rope_chars(r) == text@,
{
    Rope::from_str(text)
}

/// Relies on ropey's `Clone` for `Rope`: the copy holds the same characters.
#[verifier::external_body]
fn rope_clone(r: &Rope) -> (c: Rope)
    ensures
        rope_chars(c) == rope_chars(*r),
{
    r.clone()
}

/// Relies on ropey's `Rope::len_chars`: the number of characters.
#[verifier::external_body]
fn rope_len_chars(r: &Rope) -> (n: usize)
    ensures
        n == rope_chars(*r).len(),
{
    r.len_chars()
}

/// Relies on ropey's `Rope::char`: the character at index `i`. It panics at
/// or past the end.
#[verifier::external_body]
fn rope_char(r: &Rope, i: usize) -> (c: char)
    requires
        i < rope_chars(*r).len(),
    ensures
        c == rope_chars(*r)[i as int],
{
    r.char(i)
}

/// Relies on ropey's `Rope::len_lines`: one more than the number of line
/// breaks, with the breaks that ropey's default features recognise.
#[verifier::external_body]
fn rope_len_lines(r: &Rope) -> (n: usize)
    ensures
        n == line_break_count(rope_chars(*r)) + 1,
{
    r.len_lines()
}

/// Relies on ropey's `Rope::len_utf16_cu`: the length of the text in UTF-16
/// code units.
#[verifier::external_body]
fn rope_len_utf16_cu(r: &Rope) -> (n: usize)
    ensures
        n == utf16_len(rope_chars(*r)),
{
    r.len_utf16_cu()
}

/// Relies on ropey's `Rope::line_to_char`: the character index at which a
/// line begins. It panics only past one beyond the last line.
#[verifier::external_body]
fn rope_line_to_char(r: &Rope, line: usize) -> (n: usize)
    requires
        line <= line_break_count(rope_chars(*r)),
    ensures
        n == line_start(rope_chars(*r), line as nat),
{
    r.line_to_char(line)
}

/// Relies on ropey's `Rope::char_to_utf16_cu`: how many UTF-16 code units
/// encode the characters before `i`. It panics past the end.
#[verifier::external_body]
fn rope_char_to_utf16_cu(r: &Rope, i: usize) -> (n: usize)
    requires
        i <= rope_chars(*r).len(),
    ensures
        n == utf16_len(rope_chars(*r).take(i as int)),
{
    r.char_to_utf16_cu(i)
}

/// Relies on ropey's `Rope::utf16_cu_to_char`: the index of the character
/// that UTF-16 code unit `u` belongs to. It panics past the end.
#[verifier::external_body]
fn rope_utf16_cu_to_char(r: &Rope, u: usize) -> (n: usize)
    requires
        u <= utf16_len(rope_chars(*r)),
    ensures
        n == utf16_to_char(rope_chars(*r), u as int),
{
    r.utf16_cu_to_char(u)
}

/// Relies on ropey's `Rope::slice` and its conversion of a slice into a
/// `String`: the characters in `[start, end)`. It panics on a bad range.
#[verifier::external_body]
fn rope_slice_string(r: &Rope, start: usize, end: usize) -> (s: String)
    requires
        start <= end <= rope_chars(*r).len(),
    ensures
        s@ == rope_chars(*r).subrange(start as int, end as int),
{
    String::from(r.slice(start..end))
}

/// Relies on ropey's `Rope::remove`: the characters in `[start, end)` go. It
/// panics on a bad range.
#[verifier::external_body]
fn rope_remove(r: &mut Rope, start: usize, end: usize)
    requires
        start <= end <= rope_chars(*old(r)).len(),
    ensures
        rope_chars(*final(r)) == rope_chars(*old(r)).take(start as int) + rope_chars(
            *old(r),
        ).skip(end as int),
{
    r.remove(start..end)
}

/// Relies on ropey's `Rope::insert`: `text` goes in before index `at`. It
/// panics past the end.
#[verifier::external_body]
fn rope_insert(r: &mut Rope, at: usize, text: &str)
    requires
        at <= rope_chars(*old(r)).len(),
    ensures
        rope_chars(*final(r)) == rope_chars(*old(r)).take(at as int) + text@ + rope_chars(
            *old(r),
        ).skip(at as int),
{
    r.insert(at, text)
}

/// An editable text, indexed by character.
pub struct TextBuffer {
    rope: Rope,
}

impl View for TextBuffer {
    type V = Seq<char>;

    closed spec fn view(&self) -> Seq<char> {
        rope_chars(self.rope)
    }
}

impl TextBuffer {
    /// A buffer that holds `text`.
    pub fn from_text(text: &str) -> (b: TextBuffer)
        ensures
            b@ == text@,
    {
        TextBuffer { rope: rope_from_str(text) }
    }

    /// A buffer that holds what this one holds now; later edits of either
    /// leave the other as it is.
    pub fn snapshot(&self) -> (b: TextBuffer)
        ensures
            b@ == self@,
    {
        TextBuffer { rope: rope_clone(&self.rope) }
    }

    pub fn len_chars(&self) -> (n: usize)
        ensures
            n == self@.len(),
    {
        rope_len_chars(&self.rope)
    }

    /// The whole text.
    pub fn text(&self) -> (s: String)
        ensures
            s@ == self@,
    {
        let n = rope_len_chars(&self.rope);
        let s = rope_slice_string(&self.rope, 0, n);
        assert(self@.subrange(0, n as int) =~= self@);
        s
    }

    /// The characters in `[start, end)`.
    pub fn slice(&self, start: usize, end: usize) -> (s: String)
        requires
            start <= end <= self@.len(),
        ensures
            s@ == self@.subrange(start as int, end as int),
    {
        rope_slice_string(&self.rope, start, end)
    }

    /// The character index that `p` names: `None` where the line does not
    /// exist or the column runs past the end of the line's text.
    pub fn offset_of(&self, p: Position) -> (r: Option<usize>)
        ensures
            r is Some <==> char_offset(self@, p) is Some,
            r matches Some(o) ==> char_offset(self@, p) == Some(o as nat) && o <= self@.len(),
    {
        proof {
            lemma_char_offset_bound(self@, p);
        }
        let lines = rope_len_lines(&self.rope);
        if p.line as usize >= lines {
            return None;
        }
        let line = p.line as usize;
        let start = rope_line_to_char(&self.rope, line);
        proof {
            lemma_line_start_bound(self@, line as nat);
        }
        let end = if line + 1 < lines {
            let next = rope_line_to_char(&self.rope, line + 1);
            proof {
                lemma_line_start_bound(self@, (line + 1) as nat);
                lemma_line_start_after_first(self@, (line + 1) as nat);
            }
            if next >= 2 && rope_char(&self.rope, next - 2) == '\r' && rope_char(&self.rope, next - 1)
                == '\n' {
                next - 2
            } else {
                next - 1
            }
        } else {
            rope_len_chars(&self.rope)
        };
        assert(end == line_end(self@, line as nat));
        let base = rope_char_to_utf16_cu(&self.rope, start);
        let limit = rope_char_to_utf16_cu(&self.rope, end);
        if base > limit || p.character as usize > limit - base {
            return None;
        }
        proof {
            lemma_utf16_len_take(self@, end as int);
        }
        Some(rope_utf16_cu_to_char(&self.rope, base + p.character as usize))
    }

    /// The character indices that `r` spans: `None` where an end is not in
    /// the text or the start comes after the end.
    pub fn range_of(&self, r: Range) -> (o: Option<(usize, usize)>)
        ensures
            o is Some <==> range_offsets(self@, r) is Some,
            o matches Some((a, b)) ==> range_offsets(self@, r) == Some((a as nat, b as nat)) && a
                <= b <= self@.len(),
    {
        match (self.offset_of(r.start), self.offset_of(r.end)) {
            (Some(a), Some(b)) => {
                if a <= b {
                    Some((a, b))
                } else {
                    None
                }
            },
            _ => None,
        }
    }

    /// Replaces the characters in `[start, end)` by `text`; an empty range
    /// inserts.
    pub fn replace(&mut self, start: usize, end: usize, text: &str)
        requires
            start <= end <= old(self)@.len(),
        ensures
            final(self)@ == splice(old(self)@, start as int, end as int, text@),
    {
        let ghost before = self@;
        rope_remove(&mut self.rope, start, end);
        let ghost removed = self@;
        assert(removed.take(start as int) =~= before.take(start as int));
        assert(removed.skip(start as int) =~= before.skip(end as int));
        rope_insert(&mut self.rope, start, text);
    }
}

} // verus!
