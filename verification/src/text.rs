//! Character-level helpers shared by the parsers and the renderer.

use vstd::prelude::*;
use vstd::std_specs::iter::IteratorSpec;

verus! {

/// The characters of `s`, in order.
pub fn chars_of(s: &str) -> (out: Vec<char>)
    ensures
        out@ == s@,
{
    broadcast use vstd::string::axiom_spec_iter, vstd::string::next_postcondition;

    let mut it = s.chars();
    let mut out: Vec<char> = Vec::new();
    loop
        invariant
            it.obeys_prophetic_iter_laws(),
            it.decrease() is Some,
            out@ + it.remaining() == s@,
        decreases it.decrease()->0,
    {
        let ghost before = it;
        match it.next() {
            Some(c) => {
                assert(out@.push(c) + before.remaining().drop_first() =~= out@
                    + before.remaining());
                out.push(c);
            },
            None => {
                assert(out@ + before.remaining() =~= out@);
                return out;
            },
        }
    }
}

/// Whether `needle` stands in `hay` starting at index `at`.
pub open spec fn occurs_at(hay: Seq<char>, needle: Seq<char>, at: int) -> bool {
    &&& 0 <= at
    &&& at + needle.len() <= hay.len()
    &&& hay.subrange(at, at + needle.len()) == needle
}

/// Whether `needle` is a contiguous part of `hay`.
pub open spec fn has_infix(hay: Seq<char>, needle: Seq<char>) -> bool {
    exists|at: int| occurs_at(hay, needle, at)
}

/// Tests whether `needle` stands in `hay` at index `at`.
pub fn matches_at(hay: &Vec<char>, needle: &Vec<char>, at: usize) -> (hit: bool)
    requires
        at + needle.len() <= hay.len(),
    ensures
        hit == occurs_at(hay@, needle@, at as int),
{
    let mut k: usize = 0;
    while k < needle.len()
        invariant
            k <= needle.len(),
            at + needle.len() <= hay.len(),
            forall|j: int| 0 <= j < k ==> hay@[at + j] == needle@[j],
        decreases needle.len() - k,
    {
        if hay[at + k] != needle[k] {
            proof {
                let part = hay@.subrange(at as int, at + needle.len());
                assert(part[k as int] == hay@[at + k]);
            }
            return false;
        }
        k += 1;
    }
    assert(hay@.subrange(at as int, at + needle.len()) =~= needle@);
    true
}

/// Searches `hay` for `needle`.
pub fn contains(hay: &Vec<char>, needle: &Vec<char>) -> (found: bool)
    ensures
        found == has_infix(hay@, needle@),
{
    if needle.len() > hay.len() {
        return false;
    }
    let last: usize = hay.len() - needle.len();
    let mut at: usize = 0;
    loop
        invariant
            last == hay.len() - needle.len(),
            at <= last,
            forall|j: int| 0 <= j < at ==> !occurs_at(hay@, needle@, j),
        decreases last - at,
    {
        if matches_at(hay, needle, at) {
            return true;
        }
        if at == last {
            return false;
        }
        at += 1;
    }
}

/// Index of the first `mark` in `s`, or the length of `s` where it has none.
pub open spec fn first_of(s: Seq<char>, mark: char) -> int
    decreases s.len(),
{
    if s.len() == 0 || s[0] == mark {
        0
    } else {
        1 + first_of(s.drop_first(), mark)
    }
}

/// Index of the first line feed in `s`, or the length of `s` where it has none.
pub open spec fn first_break(s: Seq<char>) -> int {
    first_of(s, '\n')
}

/// `line` without a carriage return at its end.
pub open spec fn strip_cr(line: Seq<char>) -> Seq<char> {
    if line.len() > 0 && line.last() == '\r' {
        line.drop_last()
    } else {
        line
    }
}

/// The lines of `s`. A line ends at a line feed, or at a carriage return
/// directly followed by one; neither belongs to the line. Text after the last
/// line feed is a line of its own unless it is empty.
pub open spec fn lines(s: Seq<char>) -> Seq<Seq<char>>
    decreases s.len(),
{
    let end = first_break(s);
    if s.len() == 0 {
        Seq::empty()
    } else if 0 <= end < s.len() {
        seq![strip_cr(s.subrange(0, end))] + lines(s.subrange(end + 1, s.len() as int))
    } else {
        seq![s]
    }
}

/// The views of the vectors in `rows`, in order.
pub open spec fn row_views(rows: Seq<Vec<char>>) -> Seq<Seq<char>> {
    Seq::new(rows.len(), |i: int| rows[i]@)
}

/// Where the first `k` characters of `s` are not `mark`, and `s` ends at `k`
/// or holds `mark` there, the first `mark` is at `k`.
pub proof fn lemma_first_of(s: Seq<char>, mark: char, k: int)
    requires
        0 <= k <= s.len(),
        forall|j: int| 0 <= j < k ==> s[j] != mark,
        k == s.len() || s[k] == mark,
    ensures
        first_of(s, mark) == k,
    decreases k,
{
    if k > 0 {
        lemma_first_of(s.drop_first(), mark, k - 1);
    }
}

/// Splits `text` into its lines.
pub fn split_lines(text: &Vec<char>) -> (out: Vec<Vec<char>>)
    ensures
        row_views(out@) == lines(text@),
{
    let mut out: Vec<Vec<char>> = Vec::new();
    let mut cur: Vec<char> = Vec::new();
    let mut start: usize = 0;
    let mut i: usize = 0;
    assert(text@.subrange(0, text@.len() as int) =~= text@);
    assert(row_views(out@) + lines(text@) =~= lines(text@));
    while i < text.len()
        invariant
            start <= i <= text.len(),
            cur@ == text@.subrange(start as int, i as int),
            forall|j: int| start <= j < i ==> text@[j] != '\n',
            lines(text@) == row_views(out@) + lines(
                text@.subrange(start as int, text@.len() as int),
            ),
        decreases text.len() - i,
    {
        let c = text[i];
        if c == '\n' {
            let ghost rest = text@.subrange(start as int, text@.len() as int);
            let ghost raw = cur@;
            proof {
                lemma_first_of(rest, '\n', i - start);
                assert(rest.subrange(0, i - start) =~= raw);
                assert(rest.subrange(i - start + 1, rest.len() as int) =~= text@.subrange(
                    i + 1,
                    text@.len() as int,
                ));
            }
            let n = cur.len();
            if n > 0 && cur[n - 1] == '\r' {
                cur.pop();
            }
            assert(cur@ =~= strip_cr(raw));
            let ghost before = row_views(out@);
            out.push(cur);
            assert(row_views(out@) =~= before + seq![strip_cr(raw)]);
            assert(before + (seq![strip_cr(raw)] + lines(
                text@.subrange(i + 1, text@.len() as int),
            )) =~= row_views(out@) + lines(text@.subrange(i + 1, text@.len() as int)));
            cur = Vec::new();
            start = i + 1;
            assert(cur@ =~= text@.subrange(start as int, start as int));
        } else {
            cur.push(c);
            assert(cur@ =~= text@.subrange(start as int, i + 1));
        }
        i += 1;
    }
    let ghost rest = text@.subrange(start as int, text@.len() as int);
    if start < text.len() {
        proof {
            lemma_first_of(rest, '\n', rest.len() as int);
            assert(cur@ =~= rest);
        }
        let ghost before = row_views(out@);
        out.push(cur);
        assert(row_views(out@) =~= before + seq![rest]);
    } else {
        assert(row_views(out@) + lines(rest) =~= row_views(out@));
    }
    out
}

/// Appends one character to a string. This is `String::push` of the
/// standard library, which is believed to put `c` behind what `s` held and to
/// change nothing else.
#[verifier::external_body]
fn push_char(s: &mut String, c: char)
    ensures
        final(s)@ == old(s)@.push(c),
{
    s.push(c);
}

/// The fields of `s` between occurrences of `sep`. There is always at least
/// one field; two separators in a row hold an empty field between them.
pub open spec fn fields(s: Seq<char>, sep: char) -> Seq<Seq<char>>
    decreases s.len(),
{
    let end = first_of(s, sep);
    if 0 <= end < s.len() {
        seq![s.subrange(0, end)] + fields(s.subrange(end + 1, s.len() as int), sep)
    } else {
        seq![s]
    }
}

/// The texts of `rows`, in order.
pub open spec fn texts(rows: Seq<String>) -> Seq<Seq<char>> {
    Seq::new(rows.len(), |i: int| rows[i]@)
}

/// Splits `text` at every `sep`.
pub fn split_fields(text: &str, sep: char) -> (out: Vec<String>)
    ensures
        texts(out@) == fields(text@, sep),
{
    let text = chars_of(text);
    let mut out: Vec<String> = Vec::new();
    let mut cur = String::new();
    let mut start: usize = 0;
    let mut i: usize = 0;
    assert(text@.subrange(0, text@.len() as int) =~= text@);
    assert(texts(out@) + fields(text@, sep) =~= fields(text@, sep));
    while i < text.len()
        invariant
            start <= i <= text.len(),
            cur@ == text@.subrange(start as int, i as int),
            forall|j: int| start <= j < i ==> text@[j] != sep,
            fields(text@, sep) == texts(out@) + fields(
                text@.subrange(start as int, text@.len() as int),
                sep,
            ),
        decreases text.len() - i,
    {
        let c = text[i];
        if c == sep {
            let ghost rest = text@.subrange(start as int, text@.len() as int);
            proof {
                lemma_first_of(rest, sep, i - start);
                assert(rest.subrange(0, i - start) =~= cur@);
                assert(rest.subrange(i - start + 1, rest.len() as int) =~= text@.subrange(
                    i + 1,
                    text@.len() as int,
                ));
            }
            let ghost before = texts(out@);
            let ghost field = cur@;
            out.push(cur);
            assert(texts(out@) =~= before + seq![field]);
            assert(before + (seq![field] + fields(text@.subrange(i + 1, text@.len() as int), sep))
                =~= texts(out@) + fields(text@.subrange(i + 1, text@.len() as int), sep));
            cur = String::new();
            start = i + 1;
            assert(cur@ =~= text@.subrange(start as int, start as int));
        } else {
            push_char(&mut cur, c);
            assert(cur@ =~= text@.subrange(start as int, i + 1));
        }
        i += 1;
    }
    let ghost rest = text@.subrange(start as int, text@.len() as int);
    proof {
        lemma_first_of(rest, sep, rest.len() as int);
        assert(cur@ =~= rest);
    }
    let ghost before = texts(out@);
    out.push(cur);
    assert(texts(out@) =~= before + seq![rest]);
    out
}

/// `s` with every `from` turned into `to`.
pub open spec fn replaced(s: Seq<char>, from: char, to: char) -> Seq<char> {
    Seq::new(s.len(), |i: int| if s[i] == from { to } else { s[i] })
}

/// Turns every `from` in `text` into `to`.
pub fn replace_char(text: &str, from: char, to: char) -> (out: String)
    ensures
        out@ == replaced(text@, from, to),
{
    let text = chars_of(text);
    let mut out = String::new();
    let mut i: usize = 0;
    while i < text.len()
        invariant
            i <= text.len(),
            out@ == replaced(text@, from, to).subrange(0, i as int),
        decreases text.len() - i,
    {
        let c = text[i];
        push_char(&mut out, if c == from { to } else { c });
        assert(out@ =~= replaced(text@, from, to).subrange(0, i + 1));
        i += 1;
    }
    assert(replaced(text@, from, to).subrange(0, i as int) =~= replaced(text@, from, to));
    out
}

} // verus!
