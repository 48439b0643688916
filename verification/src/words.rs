//! The lines and the words of a text.

use crate::text::is_whitespace;
use crate::text::is_whitespace_char;
use crate::text::joined;
use crate::text::trim_start;
use vstd::prelude::*;
use vstd::string::StrSliceExecFns;
use vstd::string::StringExecFns;

verus! {

/// The length of the first line of `s`: the characters before the first line
/// feed, or all of them.
pub open spec fn line_len(s: Seq<char>) -> nat
    decreases s.len(),
{
    if s.len() == 0 || s.first() == '\n' {
        0
    } else {
        1 + line_len(s.drop_first())
    }
}

/// The lines of a text: what stands between its line feeds. A line feed at
/// the very end begins no further line, and the empty text has no line.
pub open spec fn lines(s: Seq<char>) -> Seq<Seq<char>>
    decreases s.len(),
{
    if s.len() == 0 {
        Seq::empty()
    } else if line_len(s) < s.len() {
        seq![s.take(line_len(s) as int)] + lines(s.skip(line_len(s) as int + 1))
    } else {
        seq![s]
    }
}

/// The length of the word at the start of `s`: the characters before the
/// first white space, or all of them.
pub open spec fn word_len(s: Seq<char>) -> nat
    decreases s.len(),
{
    if s.len() == 0 || is_whitespace_char(s.first()) {
        0
    } else {
        1 + word_len(s.drop_first())
    }
}

/// The words of a text: its runs of characters that are no white space.
pub open spec fn words(s: Seq<char>) -> Seq<Seq<char>>
    decreases s.len(),
{
    let rest = trim_start(s);
    let n = word_len(rest);
    if 0 < n <= rest.len() && rest.len() <= s.len() {
        seq![rest.take(n as int)] + words(rest.skip(n as int))
    } else {
        Seq::empty()
    }
}

/// The parts of `s` that a list of spans marks, in order.
pub open spec fn span_texts(s: Seq<char>, spans: Seq<(usize, usize)>) -> Seq<Seq<char>> {
    Seq::new(spans.len(), |i: int| s.subrange(spans[i].0 as int, spans[i].1 as int))
}

/// Every span lies in a text of this length.
pub open spec fn spans_within(spans: Seq<(usize, usize)>, len: nat) -> bool {
    forall|i: int| 0 <= i < spans.len() ==> (#[trigger] spans[i]).0 <= spans[i].1 <= len
}

/// A word is no longer than its text.
pub proof fn lemma_word_len_bound(s: Seq<char>)
    ensures
        word_len(s) <= s.len(),
    decreases s.len(),
{
    if s.len() > 0 && !is_whitespace_char(s.first()) {
        lemma_word_len_bound(s.drop_first());
    }
}

/// What is left after the white space at the start is a tail of the text,
/// and it does not begin with white space.
pub proof fn lemma_trim_start_is_tail(s: Seq<char>)
    ensures
        trim_start(s).len() <= s.len(),
        trim_start(s) == s.skip(s.len() - trim_start(s).len()),
        trim_start(s).len() > 0 ==> !is_whitespace_char(trim_start(s).first()),
        forall|i: int| 0 <= i < s.len() - trim_start(s).len() ==> is_whitespace_char(s[i]),
    decreases s.len(),
{
    if s.len() > 0 && is_whitespace_char(s.first()) {
        let rest = s.drop_first();
        lemma_trim_start_is_tail(rest);
        assert(rest.skip(rest.len() - trim_start(rest).len()) =~= s.skip(
            s.len() - trim_start(s).len(),
        ));
        assert forall|i: int| 0 <= i < s.len() - trim_start(s).len() implies is_whitespace_char(
            s[i],
        ) by {
            if i > 0 {
                assert(s[i] == rest[i - 1]);
            }
        }
    } else {
        assert(s.skip(0) =~= s);
    }
}

/// A text has no words exactly when it is white space throughout; the bounds
/// in the definition of `words` never cut a word short.
pub proof fn lemma_words_of_blank(s: Seq<char>)
    ensures
        word_len(trim_start(s)) <= trim_start(s).len() <= s.len(),
        words(s).len() == 0 <==> trim_start(s).len() == 0,
        trim_start(s).len() == 0 <==> forall|i: int| 0 <= i < s.len() ==> is_whitespace_char(s[i]),
{
    lemma_trim_start_is_tail(s);
    lemma_word_len_bound(trim_start(s));
    let rest = trim_start(s);
    if rest.len() > 0 {
        assert(s[s.len() - rest.len()] == rest.first());
    }
}

/// The end of the line that begins at `from`: the place of the next line
/// feed, or the end of the text.
fn line_end(s: &[char], from: usize) -> (end: usize)
    requires
        from <= s.len(),
    ensures
        from <= end <= s.len(),
        end - from == line_len(s@.skip(from as int)),
{
    let mut end: usize = from;
    while end < s.len() && s[end] != '\n'
        invariant
            from <= end <= s.len(),
            line_len(s@.skip(from as int)) == (end - from) + line_len(s@.skip(end as int)),
        decreases s.len() - end,
    {
        assert(s@.skip(end as int).drop_first() =~= s@.skip(end + 1));
        end += 1;
    }
    end
}

/// The end of the word that begins at `from` and is over by `to`.
fn word_end(s: &[char], from: usize, to: usize) -> (end: usize)
    requires
        from <= to <= s.len(),
    ensures
        from <= end <= to,
        end - from == word_len(s@.subrange(from as int, to as int)),
{
    let mut end: usize = from;
    while end < to && !is_whitespace(s[end])
        invariant
            from <= end <= to,
            to <= s.len(),
            word_len(s@.subrange(from as int, to as int)) == (end - from) + word_len(
                s@.subrange(end as int, to as int),
            ),
        decreases to - end,
    {
        assert(s@.subrange(end as int, to as int).drop_first() =~= s@.subrange(
            end + 1,
            to as int,
        ));
        end += 1;
    }
    end
}

/// Where the lines of a text begin and end.
pub fn split_lines(s: &[char]) -> (spans: Vec<(usize, usize)>)
    ensures
        spans_within(spans@, s@.len()),
        span_texts(s@, spans@) == lines(s@),
{
    let mut spans: Vec<(usize, usize)> = Vec::new();
    let n = s.len();
    let mut pos: usize = 0;
    assert(s@.skip(0) =~= s@);
    assert(span_texts(s@, spans@) + lines(s@.skip(0)) =~= lines(s@));
    while pos < n
        invariant
            pos <= n,
            n == s.len(),
            spans_within(spans@, s@.len()),
            lines(s@) == span_texts(s@, spans@) + lines(s@.skip(pos as int)),
        decreases n - pos,
    {
        let end = line_end(s, pos);
        let ghost rest = s@.skip(pos as int);
        let ghost before = spans@;
        spans.push((pos, end));
        proof {
            assert(rest.take(end - pos) =~= s@.subrange(pos as int, end as int));
            assert(span_texts(s@, spans@) =~= span_texts(s@, before) + seq![
                s@.subrange(pos as int, end as int),
            ]);
            if end < n {
                assert(rest.skip(end - pos + 1) =~= s@.skip(end + 1));
                assert(lines(rest) == seq![rest.take(end - pos)] + lines(s@.skip(end + 1)));
            } else {
                assert(rest.take(end - pos) =~= rest);
                assert(s@.skip(n as int).len() == 0);
                assert(lines(rest) =~= seq![rest] + lines(s@.skip(n as int)));
            }
        }
        if end < n {
            pos = end + 1;
        } else {
            pos = n;
        }
        assert(lines(s@) =~= span_texts(s@, spans@) + lines(s@.skip(pos as int)));
    }
    assert(s@.skip(n as int).len() == 0);
    assert(span_texts(s@, spans@) + lines(s@.skip(n as int)) =~= span_texts(s@, spans@));
    spans
}

/// Where the words begin and end in the part of a text from `from` up to
/// `to`.
pub fn split_words(s: &[char], from: usize, to: usize) -> (spans: Vec<(usize, usize)>)
    requires
        from <= to <= s.len(),
    ensures
        spans_within(spans@, s@.len()),
        span_texts(s@, spans@) == words(s@.subrange(from as int, to as int)),
{
    let mut spans: Vec<(usize, usize)> = Vec::new();
    let mut pos: usize = from;
    assert(span_texts(s@, spans@) + words(s@.subrange(from as int, to as int)) =~= words(
        s@.subrange(from as int, to as int),
    ));
    loop
        invariant
            from <= pos <= to,
            to <= s.len(),
            spans_within(spans@, s@.len()),
            words(s@.subrange(from as int, to as int)) == span_texts(s@, spans@) + words(
                s@.subrange(pos as int, to as int),
            ),
        decreases to - pos,
    {
        let ghost part = s@.subrange(pos as int, to as int);
        let mut start: usize = pos;
        while start < to && is_whitespace(s[start])
            invariant
                pos <= start <= to,
                to <= s.len(),
                part == s@.subrange(pos as int, to as int),
                trim_start(part) == trim_start(s@.subrange(start as int, to as int)),
            decreases to - start,
        {
            assert(s@.subrange(start as int, to as int).drop_first() =~= s@.subrange(
                start + 1,
                to as int,
            ));
            start += 1;
        }
        let ghost rest = s@.subrange(start as int, to as int);
        assert(trim_start(part) == rest);
        if start == to {
            assert(words(part) =~= Seq::empty());
            assert(span_texts(s@, spans@) + words(part) =~= span_texts(s@, spans@));
            return spans;
        }
        let end = word_end(s, start, to);
        let ghost before = spans@;
        spans.push((start, end));
        proof {
            assert(end > start);
            assert(rest.take(end - start) =~= s@.subrange(start as int, end as int));
            assert(rest.skip(end - start) =~= s@.subrange(end as int, to as int));
            assert(words(part) == seq![rest.take(end - start)] + words(rest.skip(end - start)));
            assert(span_texts(s@, spans@) =~= span_texts(s@, before) + seq![
                s@.subrange(start as int, end as int),
            ]);
        }
        pos = end;
        assert(words(s@.subrange(from as int, to as int)) =~= span_texts(s@, spans@) + words(
            s@.subrange(pos as int, to as int),
        ));
    }
}

/// The parts of a text that a list of spans marks, from the span at `first`
/// on, with `sep` between each two neighbours.
pub fn join_spans(text: &str, spans: &Vec<(usize, usize)>, first: usize, sep: &str) -> (r: String)
    requires
        spans_within(spans@, text@.len()),
        first <= spans@.len(),
    ensures
        r@ == joined(span_texts(text@, spans@).skip(first as int), sep@),
{
    let ghost parts = span_texts(text@, spans@).skip(first as int);
    let mut out = String::new();
    if first == spans.len() {
        return out;
    }
    let mut i: usize = first;
    assert(parts.take(0) =~= Seq::<Seq<char>>::empty());
    while i < spans.len()
        invariant
            first <= i <= spans.len(),
            spans_within(spans@, text@.len()),
            parts == span_texts(text@, spans@).skip(first as int),
            out@ == joined(parts.take(i - first), sep@),
        decreases spans.len() - i,
    {
        let (from, to) = spans[i];
        if i > first {
            out.append(sep);
        }
        out.append(text.substring_char(from, to));
        proof {
            let next = parts.take(i - first + 1);
            assert(next.drop_last() =~= parts.take(i - first));
            assert(next.last() == text@.subrange(from as int, to as int));
            if i == first {
                assert(next.len() == 1);
                assert(out@ =~= next[0]);
            } else {
                assert(next.len() > 1);
            }
        }
        i += 1;
    }
    assert(parts.take(i - first) =~= parts);
    out
}

} // verus!
