//! Bounded, printable previews of optional text values.
//!
//! A missing value reads `null`. A present value is trimmed, its newlines are
//! written as the two characters `\n`, and it is cut after [`CUTOFF`]
//! characters, with `..` appended to mark the cut. A value that is empty
//! after trimming reads `(empty string)`, which tells it apart from a missing
//! one. Lengths are counted in characters, never in bytes.

use vstd::prelude::*;
use crate::text::{blanks, chars_of, ink_start, lemma_ink_bounds, push_chars, trim_bounds, trimmed,
    white_space};

verus! {

/// Number of characters of a value that a preview shows before it is cut.
pub const CUTOFF: usize = 70;

/// What one character becomes in a preview: a newline becomes a backslash
/// followed by `n`, any other character stays.
pub open spec fn escape_of(c: char) -> Seq<char> {
    if c == '\n' {
        seq!['\\', 'n']
    } else {
        seq![c]
    }
}

/// `s` with every newline written as the two characters `\n`.
pub open spec fn escaped(s: Seq<char>) -> Seq<char>
    decreases s.len(),
{
    if s.len() == 0 {
        Seq::empty()
    } else {
        escaped(s.drop_last()) + escape_of(s.last())
    }
}

/// The display form of an already trimmed and escaped text `t`.
pub open spec fn clipped(t: Seq<char>) -> Seq<char> {
    if t.len() > CUTOFF {
        t.take(CUTOFF as int) + ".."@
    } else if t.len() == 0 {
        "(empty string)"@
    } else {
        t
    }
}

/// The preview of an optional text value.
pub open spec fn preview(value: Option<Seq<char>>) -> Seq<char> {
    match value {
        None => "null"@,
        Some(s) => clipped(escaped(trimmed(s))),
    }
}

/// The characters `chars[from..to]` with every newline escaped.
pub(crate) fn escape_newlines(chars: &Vec<char>, from: usize, to: usize) -> (out: Vec<char>)
    requires
        from <= to <= chars.len(),
    ensures
        out@ == escaped(chars@.subrange(from as int, to as int)),
{
    let ghost part = chars@.subrange(from as int, to as int);
    let mut out: Vec<char> = Vec::new();
    let mut i: usize = from;
    while i < to
        invariant
            from <= i <= to <= chars.len(),
            part == chars@.subrange(from as int, to as int),
            out@ == escaped(part.take(i - from)),
        decreases to - i,
    {
        proof {
            assert(part.take(i - from + 1).drop_last() == part.take(i - from));
            assert(part.take(i - from + 1).last() == chars[i as int]);
        }
        let c = chars[i];
        if c == '\n' {
            out.push('\\');
            out.push('n');
        } else {
            out.push(c);
        }
        i += 1;
    }
    assert(part.take(to - from) == part);
    out
}

/// Cuts a trimmed and escaped text to its display form.
pub fn clip(text: &Vec<char>) -> (out: String)
    ensures
        out@ == clipped(text@),
{
    let mut out = String::new();
    if text.len() > CUTOFF {
        push_chars(&mut out, text, 0, CUTOFF);
        out.append("..");
    } else if text.len() == 0 {
        out.append("(empty string)");
    } else {
        push_chars(&mut out, text, 0, text.len());
        assert(text@.subrange(0, text.len() as int) == text@);
    }
    out
}

/// The preview of a present text value.
pub fn preview_text(value: &str) -> (out: String)
    ensures
        out@ == preview(Some(value@)),
{
    let chars = chars_of(value);
    let (from, to) = trim_bounds(&chars);
    let body = escape_newlines(&chars, from, to);
    clip(&body)
}

/// The preview of a borrowed optional text value.
pub fn preview_value(value: &Option<String>) -> (out: String)
    ensures
        out@ == preview(value.deep_view()),
{
    match value {
        None => "null".to_owned(),
        Some(s) => preview_text(s.as_str()),
    }
}

/// Renders an optional text value as a bounded, printable string.
pub fn printable(c: Option<String>) -> (out: String)
    ensures
        out@ == preview(c.deep_view()),
{
    preview_value(&c)
}

/// A text without newlines is its own escaped form.
pub proof fn lemma_escaped_plain(s: Seq<char>)
    requires
        forall|i: int| 0 <= i < s.len() ==> s[i] != '\n',
    ensures
        escaped(s) == s,
    decreases s.len(),
{
    if s.len() > 0 {
        lemma_escaped_plain(s.drop_last());
        assert(s.drop_last() + seq![s.last()] == s);
    }
}

/// A text of at most [`CUTOFF`] characters that holds no newline and is not
/// empty after trimming is shown as its trimmed form, unchanged.
pub proof fn law_short_plain_text_is_kept(s: Seq<char>)
    requires
        s.len() <= CUTOFF,
        forall|i: int| 0 <= i < s.len() ==> s[i] != '\n',
        trimmed(s).len() > 0,
    ensures
        preview(Some(s)) == trimmed(s),
{
    let blank = blanks(s);
    lemma_ink_bounds(blank, 0, s.len() as int);
    lemma_ink_bounds(blank, ink_start(blank, 0), s.len() as int);
    lemma_escaped_plain(trimmed(s));
}

/// A text longer than [`CUTOFF`] characters whose trimmed and escaped form
/// is still longer than that is shown as the first [`CUTOFF`] characters of
/// that form followed by `..`, which makes `CUTOFF + 2` characters.
pub proof fn law_long_text_is_cut(s: Seq<char>)
    requires
        s.len() > CUTOFF,
        escaped(trimmed(s)).len() > CUTOFF,
    ensures
        preview(Some(s)) == escaped(trimmed(s)).take(CUTOFF as int) + ".."@,
        preview(Some(s)).len() == CUTOFF + 2,
{
    reveal_strlit("..");
}

/// A text made of whitespace only, the empty text included, is shown as
/// `(empty string)`.
pub proof fn law_blank_text_reads_empty(s: Seq<char>)
    requires
        forall|i: int| 0 <= i < s.len() ==> white_space(s[i]),
    ensures
        preview(Some(s)) == "(empty string)"@,
{
    lemma_blank_run(blanks(s), 0);
    assert(trimmed(s).len() == 0);
    assert(trimmed(s) == Seq::<char>::empty());
}

proof fn lemma_blank_run(blank: Seq<bool>, from: int)
    requires
        0 <= from <= blank.len(),
        forall|i: int| 0 <= i < blank.len() ==> blank[i],
    ensures
        ink_start(blank, from) == blank.len(),
    decreases blank.len() - from,
{
    if from < blank.len() {
        lemma_blank_run(blank, from + 1);
    }
}

/// No preview is longer than `CUTOFF + 2` characters.
pub proof fn law_preview_is_bounded(value: Option<Seq<char>>)
    ensures
        0 < preview(value).len() <= CUTOFF + 2,
{
    reveal_strlit("..");
    reveal_strlit("null");
    reveal_strlit("(empty string)");
}

} // verus!
