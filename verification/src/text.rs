//! Character-level helpers shared by the formatter, the classifier and the
//! report renderer: conversions between strings and character vectors,
//! whitespace trimming, and decimal rendering of integers.

use vstd::prelude::*;

verus! {

/// Whether `c` is whitespace: one of the 25 characters that have the
/// `White_Space` property of the Unicode Character Database. They are the
/// controls U+0009 to U+000D and U+0085, the space U+0020, the no-break
/// space U+00A0, the Ogham space mark U+1680, the spaces U+2000 to U+200A,
/// the line and paragraph separators U+2028 and U+2029, the narrow no-break
/// space U+202F, the medium mathematical space U+205F and the ideographic
/// space U+3000.
pub open spec fn white_space(c: char) -> bool {
    ||| '\u{9}' <= c <= '\u{d}'
    ||| c == '\u{20}'
    ||| c == '\u{85}'
    ||| c == '\u{a0}'
    ||| c == '\u{1680}'
    ||| '\u{2000}' <= c <= '\u{200a}'
    ||| c == '\u{2028}'
    ||| c == '\u{2029}'
    ||| c == '\u{202f}'
    ||| c == '\u{205f}'
    ||| c == '\u{3000}'
}

/// Assumed of `char::is_whitespace`: it holds exactly of the characters
/// that have the Unicode `White_Space` property, which [`white_space`]
/// lists.
pub assume_specification[ char::is_whitespace ](c: char) -> (b: bool)
    ensures
        b == white_space(c),
;

/// Assumed of `String::push`: it appends the character at the end of the
/// string and leaves the characters before it as they were.
pub assume_specification[ String::push ](s: &mut String, ch: char)
    ensures
        final(s)@ == old(s)@.push(ch),
;

/// The characters of `s`, in order.
pub fn chars_of(s: &str) -> (out: Vec<char>)
    ensures
        out@ == s@,
{
    let mut out: Vec<char> = Vec::new();
    for c in it: s.chars()
        invariant
            out@ == it.seq().take(it.index() as int),
            it.seq() == s@,
    {
        out.push(c);
    }
    out
}

/// Whether two texts hold the same characters in the same order.
pub fn same_text(a: &str, b: &str) -> (same: bool)
    ensures
        same == (a@ == b@),
{
    let x = chars_of(a);
    let y = chars_of(b);
    if x.len() != y.len() {
        return false;
    }
    let mut i: usize = 0;
    while i < x.len()
        invariant
            i <= x.len(),
            x.len() == y.len(),
            x@ == a@,
            y@ == b@,
            forall|k: int| 0 <= k < i ==> x[k] == y[k],
        decreases x.len() - i,
    {
        if x[i] != y[i] {
            return false;
        }
        i += 1;
    }
    assert(a@ =~= b@);
    true
}

/// Appends the characters `v[from..to]` to `out`.
pub(crate) fn push_chars(out: &mut String, v: &Vec<char>, from: usize, to: usize)
    requires
        from <= to <= v.len(),
    ensures
        final(out)@ == old(out)@ + v@.subrange(from as int, to as int),
{
    let mut i: usize = from;
    while i < to
        invariant
            from <= i <= to <= v.len(),
            out@ == old(out)@ + v@.subrange(from as int, i as int),
        decreases to - i,
    {
        out.push(v[i]);
        i += 1;
    }
}

/// For each character of `s`, whether it is whitespace.
pub open spec fn blanks(s: Seq<char>) -> Seq<bool> {
    Seq::new(s.len(), |i: int| white_space(s[i]))
}

/// Index of the first position at or after `from` that is not blank, or the
/// length of `blank` if there is none.
pub open spec fn ink_start(blank: Seq<bool>, from: int) -> int
    decreases blank.len() - from,
{
    if 0 <= from < blank.len() && blank[from] {
        ink_start(blank, from + 1)
    } else {
        from
    }
}

/// One past the last position before `to` that is not blank, never going
/// below `floor`.
pub open spec fn ink_end(blank: Seq<bool>, floor: int, to: int) -> int
    decreases to,
{
    if 0 <= floor < to <= blank.len() && blank[to - 1] {
        ink_end(blank, floor, to - 1)
    } else {
        to
    }
}

/// `s` without its leading and trailing whitespace.
pub open spec fn trimmed(s: Seq<char>) -> Seq<char> {
    let blank = blanks(s);
    let a = ink_start(blank, 0);
    s.subrange(a, ink_end(blank, a, s.len() as int))
}

/// The bounds computed by [`ink_start`] and [`ink_end`] stay inside the text.
pub proof fn lemma_ink_bounds(blank: Seq<bool>, from: int, to: int)
    requires
        0 <= from <= to <= blank.len(),
    ensures
        from <= ink_start(blank, from) <= blank.len(),
        from <= ink_end(blank, from, to) <= to,
    decreases blank.len() - from, to,
{
    if from < blank.len() && blank[from] {
        lemma_ink_bounds(blank, from + 1, blank.len() as int);
    }
    if from < to && blank[to - 1] {
        lemma_ink_bounds(blank, from, to - 1);
    }
}

/// Marks the characters that are whitespace.
pub fn blank_flags(chars: &Vec<char>) -> (flags: Vec<bool>)
    ensures
        flags@ == blanks(chars@),
{
    let mut flags: Vec<bool> = Vec::new();
    let mut i: usize = 0;
    while i < chars.len()
        invariant
            i <= chars.len(),
            flags@ == blanks(chars@).take(i as int),
        decreases chars.len() - i,
    {
        flags.push(chars[i].is_whitespace());
        assert(flags@ =~= blanks(chars@).take(i + 1));
        i += 1;
    }
    assert(blanks(chars@).take(chars.len() as int) =~= blanks(chars@));
    flags
}

/// The half-open range that is left when the blank positions at both ends
/// are dropped.
pub fn ink_bounds(blank: &Vec<bool>) -> (bounds: (usize, usize))
    ensures
        bounds.0 == ink_start(blank@, 0),
        bounds.1 == ink_end(blank@, bounds.0 as int, blank.len() as int),
        bounds.0 <= bounds.1 <= blank.len(),
{
    let mut a: usize = 0;
    while a < blank.len() && blank[a]
        invariant
            a <= blank.len(),
            ink_start(blank@, 0) == ink_start(blank@, a as int),
        decreases blank.len() - a,
    {
        a += 1;
    }
    let mut b: usize = blank.len();
    while a < b && blank[b - 1]
        invariant
            a <= b <= blank.len(),
            ink_end(blank@, a as int, blank.len() as int) == ink_end(blank@, a as int, b as int),
        decreases b,
    {
        b -= 1;
    }
    (a, b)
}

/// The half-open range of `chars` that is left after trimming whitespace
/// from both ends.
pub fn trim_bounds(chars: &Vec<char>) -> (bounds: (usize, usize))
    ensures
        bounds.0 <= bounds.1 <= chars.len(),
        chars@.subrange(bounds.0 as int, bounds.1 as int) == trimmed(chars@),
{
    let flags = blank_flags(chars);
    ink_bounds(&flags)
}

/// The character for the decimal digit `d`.
pub open spec fn digit(d: int) -> char {
    ('0' as int + d) as char
}

/// The decimal digits of `n`, most significant first, without leading zeros.
pub open spec fn digits(n: nat) -> Seq<char>
    decreases n,
{
    if n < 10 {
        seq![digit(n as int)]
    } else {
        digits(n / 10).push(digit((n % 10) as int))
    }
}

/// The decimal rendering of `n`, with a leading minus sign below zero.
pub open spec fn decimal(n: int) -> Seq<char> {
    if n < 0 {
        seq!['-'] + digits((-n) as nat)
    } else {
        digits(n as nat)
    }
}

fn push_digits(out: &mut String, m: u64)
    ensures
        final(out)@ == old(out)@ + digits(m as nat),
    decreases m,
{
    if m >= 10 {
        push_digits(out, m / 10);
    }
    let d: u8 = (m % 10) as u8;
    out.push((48u8 + d) as char);
}

/// Appends the decimal rendering of `n` to `out`.
pub fn push_decimal(out: &mut String, n: i64)
    ensures
        final(out)@ == old(out)@ + decimal(n as int),
{
    if n < 0 {
        out.push('-');
        let m: u64 = (-(n as i128)) as u64;
        push_digits(out, m);
    } else {
        push_digits(out, n as u64);
    }
}

/// `t` right-aligned in a field of `width` characters, padded with spaces
/// on the left; a longer text is left as it is.
pub open spec fn padded(t: Seq<char>, width: nat) -> Seq<char> {
    if t.len() >= width {
        t
    } else {
        Seq::new((width - t.len()) as nat, |i: int| ' ') + t
    }
}

/// Appends `t` to `out`, right-aligned in a field of `width` characters.
pub fn push_padded(out: &mut String, t: &str, width: usize)
    ensures
        final(out)@ == old(out)@ + padded(t@, width as nat),
{
    let n: usize = t.unicode_len();
    let mut i: usize = n;
    while i < width
        invariant
            n <= i,
            i <= width || i == n,
            out@ == old(out)@ + Seq::new((i - n) as nat, |k: int| ' '),
        decreases width - i,
    {
        out.push(' ');
        i += 1;
    }
    out.append(t);
}

} // verus!
