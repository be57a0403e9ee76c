//! Names of schemas, tables and columns as they stand in the text of a query.
//!
//! A plain name, one of ASCII letters, digits, `_` and `$` that does not
//! start with a digit or `$`, stands as it is, so that the database folds
//! its case as it does for any unquoted name. Any other name stands between
//! double quotes with each double quote in it written twice, which the
//! database reads back as exactly that name, whatever characters it holds.

use vstd::prelude::*;
use crate::text::chars_of;

verus! {

/// Whether `c` may stand in a plain name, at its start or after it.
pub open spec fn plain_char(c: char, first: bool) -> bool {
    ('a' <= c <= 'z') || ('A' <= c <= 'Z') || c == '_' || (!first && (('0' <= c <= '9') || c
        == '$'))
}

/// Whether `name` can stand in a query without quotes.
pub open spec fn is_plain(name: Seq<char>) -> bool {
    name.len() > 0 && forall|i: int| 0 <= i < name.len() ==> plain_char(#[trigger] name[i], i == 0)
}

/// `s` with each occurrence of `mark` written twice.
pub open spec fn doubled(s: Seq<char>, mark: char) -> Seq<char>
    decreases s.len(),
{
    if s.len() == 0 {
        Seq::empty()
    } else if s[0] == mark {
        seq![mark, mark] + doubled(s.drop_first(), mark)
    } else {
        seq![s[0]] + doubled(s.drop_first(), mark)
    }
}

/// `s` between two `mark`s, with each `mark` in it written twice.
pub open spec fn quoted(s: Seq<char>, mark: char) -> Seq<char> {
    seq![mark] + doubled(s, mark) + seq![mark]
}

/// `name` as it stands in a query.
pub open spec fn identifier(name: Seq<char>) -> Seq<char> {
    if is_plain(name) {
        name
    } else {
        quoted(name, '"')
    }
}

/// `schema.table`, as it stands in a query.
pub open spec fn qualified(schema: Seq<char>, table: Seq<char>) -> Seq<char> {
    identifier(schema) + "."@ + identifier(table)
}

/// How a quoted text is read back from position `at`, which is just behind
/// its opening `mark`: a doubled `mark` stands for one, a single `mark` ends
/// the text. Gives the text read and the position behind the closing `mark`,
/// or `None` if `t` ends before the text is closed.
pub open spec fn read_quoted(t: Seq<char>, mark: char, at: int) -> Option<(Seq<char>, int)>
    decreases t.len() - at,
{
    if at < 0 || at >= t.len() {
        None
    } else if t[at] != mark {
        match read_quoted(t, mark, at + 1) {
            Some((body, end)) => Some((seq![t[at]] + body, end)),
            None => None,
        }
    } else if at + 1 < t.len() && t[at + 1] == mark {
        match read_quoted(t, mark, at + 2) {
            Some((body, end)) => Some((seq![mark] + body, end)),
            None => None,
        }
    } else {
        Some((Seq::empty(), at + 1))
    }
}

/// Doubling goes piece by piece.
pub proof fn lemma_doubled_concat(a: Seq<char>, b: Seq<char>, mark: char)
    ensures
        doubled(a + b, mark) == doubled(a, mark) + doubled(b, mark),
    decreases a.len(),
{
    if a.len() == 0 {
        assert(a + b =~= b);
        assert(doubled(a, mark) + doubled(b, mark) =~= doubled(b, mark));
    } else {
        assert((a + b).drop_first() =~= a.drop_first() + b);
        lemma_doubled_concat(a.drop_first(), b, mark);
        if a[0] == mark {
            assert(seq![mark, mark] + (doubled(a.drop_first(), mark) + doubled(b, mark)) =~= (
            seq![mark, mark] + doubled(a.drop_first(), mark)) + doubled(b, mark));
        } else {
            assert(seq![a[0]] + (doubled(a.drop_first(), mark) + doubled(b, mark)) =~= (seq![a[0]]
                + doubled(a.drop_first(), mark)) + doubled(b, mark));
        }
    }
}

proof fn lemma_read_back(before: Seq<char>, s: Seq<char>, after: Seq<char>, mark: char)
    requires
        after.len() == 0 || after[0] != mark,
    ensures
        read_quoted(before + doubled(s, mark) + seq![mark] + after, mark, before.len() as int)
            == Some((s, before.len() as int + doubled(s, mark).len() + 1)),
    decreases s.len(),
{
    let t = before + doubled(s, mark) + seq![mark] + after;
    let at = before.len() as int;
    if s.len() == 0 {
        assert(t[at] == mark);
        if at + 1 < t.len() {
            assert(t[at + 1] == after[0]);
        }
    } else {
        let rest = s.drop_first();
        if s[0] == mark {
            let longer = before + seq![mark, mark];
            assert(t =~= longer + doubled(rest, mark) + seq![mark] + after);
            lemma_read_back(longer, rest, after, mark);
            assert(t[at] == mark && t[at + 1] == mark);
            assert(seq![mark] + rest =~= s);
        } else {
            let longer = before + seq![s[0]];
            assert(t =~= longer + doubled(rest, mark) + seq![mark] + after);
            lemma_read_back(longer, rest, after, mark);
            assert(t[at] == s[0]);
            assert(seq![s[0]] + rest =~= s);
        }
    }
}

/// A quoted text is read back as the text that was quoted, and the reading
/// ends at its closing mark, whatever stands before it and whatever follows
/// that does not begin with the mark. So no character of a quoted name is
/// ever read as part of the query around it.
pub proof fn law_quoted_reads_back(
    before: Seq<char>,
    s: Seq<char>,
    after: Seq<char>,
    mark: char,
)
    requires
        after.len() == 0 || after[0] != mark,
    ensures
        read_quoted(before + quoted(s, mark) + after, mark, before.len() as int + 1) == Some(
            (s, before.len() as int + quoted(s, mark).len()),
        ),
{
    lemma_read_back(before + seq![mark], s, after, mark);
    assert(before + quoted(s, mark) + after =~= (before + seq![mark]) + doubled(s, mark) + seq![
        mark,
    ] + after);
}

/// A name in a query is either the name itself, made of plain characters
/// only, or the name between double quotes.
pub proof fn law_identifier_is_plain_or_quoted(name: Seq<char>)
    ensures
        identifier(name) == name && is_plain(name) || identifier(name) == quoted(name, '"'),
{
}

fn plain(c: char, first: bool) -> (yes: bool)
    ensures
        yes == plain_char(c, first),
{
    ('a' <= c && c <= 'z') || ('A' <= c && c <= 'Z') || c == '_' || (!first && (('0' <= c && c
        <= '9') || c == '$'))
}

/// Whether the name can stand in a query without quotes.
pub fn is_plain_name(name: &Vec<char>) -> (yes: bool)
    ensures
        yes == is_plain(name@),
{
    if name.len() == 0 {
        return false;
    }
    let mut i: usize = 0;
    while i < name.len()
        invariant
            i <= name.len(),
            forall|k: int| 0 <= k < i ==> plain_char(#[trigger] name[k], k == 0),
        decreases name.len() - i,
    {
        if !plain(name[i], i == 0) {
            return false;
        }
        i += 1;
    }
    true
}

/// Appends `s` to `out` with each occurrence of `mark` written twice.
pub fn push_doubled(out: &mut String, s: &Vec<char>, mark: char)
    ensures
        final(out)@ == old(out)@ + doubled(s@, mark),
{
    let mut i: usize = 0;
    while i < s.len()
        invariant
            i <= s.len(),
            out@ == old(out)@ + doubled(s@.take(i as int), mark),
        decreases s.len() - i,
    {
        proof {
            let piece = seq![s[i as int]];
            assert(s@.take(i + 1) =~= s@.take(i as int) + piece);
            lemma_doubled_concat(s@.take(i as int), piece, mark);
            assert(piece.drop_first() =~= Seq::<char>::empty());
            assert(doubled(piece.drop_first(), mark) =~= Seq::<char>::empty());
            assert(doubled(piece, mark) =~= if s[i as int] == mark {
                seq![mark, mark]
            } else {
                piece
            });
        }
        let c = s[i];
        if c == mark {
            out.push(mark);
        }
        out.push(c);
        i += 1;
    }
    assert(s@.take(s.len() as int) =~= s@);
}

/// Appends `name` to `out` as it stands in a query.
pub fn push_identifier(out: &mut String, name: &str)
    ensures
        final(out)@ == old(out)@ + identifier(name@),
{
    let chars = chars_of(name);
    if is_plain_name(&chars) {
        out.append(name);
    } else {
        out.push('"');
        push_doubled(out, &chars, '"');
        out.push('"');
        assert(out@ =~= old(out)@ + quoted(name@, '"'));
    }
}

/// `schema.table` as it stands in a query.
pub fn qualified_name(schema: &str, table: &str) -> (out: String)
    ensures
        out@ == qualified(schema@, table@),
{
    let mut out = String::new();
    push_identifier(&mut out, schema);
    out.push('.');
    push_identifier(&mut out, table);
    proof {
        reveal_strlit(".");
        assert(out@ =~= qualified(schema@, table@));
    }
    out
}

} // verus!
