//! Lines and indentation.
//!
//! A text is read line by line; a line ends at a line feed, and a carriage return
//! directly before that line feed belongs to the ending, not to the line. Indenting
//! writes every line back with a prefix in front of it and a line feed behind it,
//! except that a blank line gets no prefix.

use crate::text::{chars_of, string_of};
use vstd::prelude::*;

verus! {

/// How many characters of `text` come before its first line feed: all of them when it
/// has none.
pub open spec fn first_line_len(text: Seq<char>) -> nat
    decreases text.len(),
{
    if text.len() == 0 || text[0] == '\n' {
        0
    } else {
        1 + first_line_len(text.drop_first())
    }
}

/// `line` without the carriage return at its end, if it has one there.
pub open spec fn without_cr(line: Seq<char>) -> Seq<char> {
    if line.len() > 0 && line.last() == '\r' {
        line.drop_last()
    } else {
        line
    }
}

/// The lines of `text`, in order. What follows the last line feed is a line of its own
/// unless it is empty, and it keeps a carriage return at its end.
pub open spec fn lines(text: Seq<char>) -> Seq<Seq<char>>
    decreases text.len(),
{
    let n = first_line_len(text) as int;
    if text.len() == 0 {
        Seq::empty()
    } else if n >= text.len() {
        seq![text]
    } else {
        seq![without_cr(text.take(n))] + lines(text.skip(n + 1))
    }
}

/// One line as it is written back: a blank line as a bare line feed, any other line
/// with `prefix` in front of it and a line feed behind it.
pub open spec fn indented_line(line: Seq<char>, prefix: Seq<char>) -> Seq<char> {
    if line.len() == 0 {
        seq!['\n']
    } else {
        prefix + line + seq!['\n']
    }
}

/// `text` with every line written back by [`indented_line`].
pub open spec fn indented(text: Seq<char>, prefix: Seq<char>) -> Seq<char> {
    lines(text).map_values(|line: Seq<char>| indented_line(line, prefix)).flatten()
}

/// Whether `text` has no line feed in it.
pub open spec fn on_one_line(text: Seq<char>) -> bool {
    forall|i: int| 0 <= i < text.len() ==> text[i] != '\n'
}

/// The first line feed is where [`first_line_len`] says: nothing before it is a line
/// feed, and either the text ends there or a line feed stands there.
pub proof fn lemma_first_line_len(text: Seq<char>)
    ensures
        first_line_len(text) <= text.len(),
        on_one_line(text.take(first_line_len(text) as int)),
        first_line_len(text) < text.len() ==> text[first_line_len(text) as int] == '\n',
    decreases text.len(),
{
    if text.len() == 0 || text[0] == '\n' {
    } else {
        let rest = text.drop_first();
        lemma_first_line_len(rest);
        let n = first_line_len(rest) as int;
        let head = text.take(n + 1);
        assert forall|i: int| 0 <= i < head.len() implies #[trigger] head[i] != '\n' by {
            if i > 0 {
                assert(rest.take(n)[i - 1] == text[i]);
            }
        }
    }
}

/// A position with no line feed before it, at which the text ends or a line feed
/// stands, is the length of the first line.
pub proof fn lemma_first_line_ends_at(text: Seq<char>, n: int)
    requires
        0 <= n <= text.len(),
        on_one_line(text.take(n)),
        n < text.len() ==> text[n] == '\n',
    ensures
        first_line_len(text) == n,
    decreases text.len(),
{
    if n == 0 {
    } else {
        assert(text.take(n)[0] == text[0]);
        let rest = text.drop_first();
        let head = rest.take(n - 1);
        assert forall|i: int| 0 <= i < head.len() implies #[trigger] head[i] != '\n' by {
            assert(text.take(n)[i + 1] == rest[i]);
        }
        lemma_first_line_ends_at(rest, n - 1);
    }
}

/// Indentation, one line at a time: the empty text stays empty, a text without a line
/// feed is one line, and any other text is its first line followed by the indentation
/// of what comes after the line feed.
pub proof fn lemma_indented_by_line(text: Seq<char>, prefix: Seq<char>)
    ensures
        text.len() == 0 ==> indented(text, prefix) == Seq::<char>::empty(),
        text.len() > 0 && first_line_len(text) >= text.len() ==> indented(text, prefix)
            == indented_line(text, prefix),
        first_line_len(text) < text.len() ==> indented(text, prefix) == indented_line(
            without_cr(text.take(first_line_len(text) as int)),
            prefix,
        ) + indented(text.skip(first_line_len(text) as int + 1), prefix),
{
    let write = |line: Seq<char>| indented_line(line, prefix);
    let n = first_line_len(text) as int;
    if text.len() == 0 {
        assert(lines(text).map_values(write) =~= Seq::<Seq<char>>::empty());
    } else if n >= text.len() {
        assert(lines(text).map_values(write) =~= seq![indented_line(text, prefix)]);
        seq![indented_line(text, prefix)].lemma_flatten_one_element();
    } else {
        let first = without_cr(text.take(n));
        let rest = lines(text.skip(n + 1));
        let written = lines(text).map_values(write);
        assert(written =~= seq![write(first)] + rest.map_values(write));
        assert(written.drop_first() =~= rest.map_values(write));
        assert(written.first() == write(first));
    }
}

/// Indenting keeps the number of lines, for every prefix without a line feed (four
/// spaces, a tab): each line is written back as exactly one line, blank or not.
pub proof fn lemma_indented_keeps_line_count(text: Seq<char>, prefix: Seq<char>)
    requires
        on_one_line(prefix),
    ensures
        lines(indented(text, prefix)).len() == lines(text).len(),
    decreases text.len(),
{
    lemma_indented_by_line(text, prefix);
    lemma_first_line_len(text);
    let n = first_line_len(text) as int;
    if text.len() == 0 {
    } else if n >= text.len() {
        assert(text.take(n) =~= text);
        lemma_lines_of_one_written_line(text, prefix, Seq::empty());
        assert(indented_line(text, prefix) + Seq::<char>::empty() =~= indented_line(
            text,
            prefix,
        ));
    } else {
        let first = without_cr(text.take(n));
        let rest = indented(text.skip(n + 1), prefix);
        assert forall|i: int| 0 <= i < first.len() implies first[i] != '\n' by {
            assert(text.take(n)[i] != '\n');
        }
        lemma_lines_of_one_written_line(first, prefix, rest);
        lemma_indented_keeps_line_count(text.skip(n + 1), prefix);
    }
}

/// A written line in front of a text is read back as one line more than that text has.
proof fn lemma_lines_of_one_written_line(line: Seq<char>, prefix: Seq<char>, rest: Seq<char>)
    requires
        on_one_line(line),
        on_one_line(prefix),
    ensures
        lines(indented_line(line, prefix) + rest).len() == 1 + lines(rest).len(),
{
    let written = indented_line(line, prefix);
    let whole = written + rest;
    let n = written.len() - 1;
    assert(whole[n] == '\n');
    let head = whole.take(n);
    assert forall|i: int| 0 <= i < head.len() implies #[trigger] head[i] != '\n' by {
        if line.len() > 0 {
            if i < prefix.len() {
                assert(whole[i] == prefix[i]);
            } else {
                assert(whole[i] == line[i - prefix.len()]);
            }
        }
    }
    lemma_first_line_ends_at(whole, n);
    assert(whole.skip(n + 1) =~= rest);
}

/// Appends the characters of `from` between `start` and `end` to `to`.
fn append_range(to: &mut Vec<char>, from: &Vec<char>, start: usize, end: usize)
    requires
        start <= end <= from.len(),
    ensures
        final(to)@ == old(to)@ + from@.subrange(start as int, end as int),
{
    let mut at: usize = start;
    while at < end
        invariant
            start <= at <= end <= from.len(),
            to@ == old(to)@ + from@.subrange(start as int, at as int),
        decreases end - at,
    {
        to.push(from[at]);
        at += 1;
        assert(from@.subrange(start as int, at as int) =~= from@.subrange(
            start as int,
            at - 1,
        ).push(from@[at - 1]));
    }
}

/// Indents the lines of `text` by `prefix`: every line that is not blank is written
/// with `prefix` before it, and every line, the last one too, with a line feed after it.
pub fn indent_chars(text: &Vec<char>, prefix: &Vec<char>) -> (output: Vec<char>)
    ensures
        output@ == indented(text@, prefix@),
{
    let mut output: Vec<char> = Vec::new();
    let mut start: usize = 0;
    assert(text@.skip(0) =~= text@);
    assert(output@ + indented(text@, prefix@) =~= indented(text@, prefix@));
    while start < text.len()
        invariant
            start <= text.len(),
            output@ + indented(text@.skip(start as int), prefix@) == indented(text@, prefix@),
        decreases text.len() - start,
    {
        let ghost rest = text@.skip(start as int);
        let mut end: usize = start;
        while end < text.len() && text[end] != '\n'
            invariant
                start <= end <= text.len(),
                on_one_line(text@.subrange(start as int, end as int)),
            decreases text.len() - end,
        {
            end += 1;
            proof {
                let seen = text@.subrange(start as int, end as int);
                assert forall|i: int| 0 <= i < seen.len() implies #[trigger] seen[i] != '\n' by {
                    if i < end - start - 1 {
                        assert(text@.subrange(start as int, end - 1)[i] == text@[start + i]);
                    }
                }
            }
        }
        proof {
            assert(rest.take(end - start) =~= text@.subrange(start as int, end as int));
            lemma_first_line_ends_at(rest, end - start);
            lemma_indented_by_line(rest, prefix@);
        }
        let ended = end < text.len();
        let mut stop: usize = end;
        if ended && start < end && text[end - 1] == '\r' {
            stop = end - 1;
        }
        let ghost line = text@.subrange(start as int, stop as int);
        proof {
            if ended {
                assert(line =~= without_cr(rest.take(end - start)));
                assert(rest.skip(end - start + 1) =~= text@.skip(end + 1));
            } else {
                assert(line =~= rest);
                lemma_indented_by_line(text@.skip(end as int), prefix@);
            }
        }
        let ghost before = output@;
        if start < stop {
            append_range(&mut output, prefix, 0, prefix.len());
            assert(prefix@.subrange(0, prefix.len() as int) =~= prefix@);
            append_range(&mut output, text, start, stop);
        }
        output.push('\n');
        assert(output@ =~= before + indented_line(line, prefix@));
        start = if ended {
            end + 1
        } else {
            end
        };
        assert(output@ + indented(text@.skip(start as int), prefix@) =~= before + (indented_line(
            line,
            prefix@,
        ) + indented(text@.skip(start as int), prefix@)));
    }
    proof {
        lemma_indented_by_line(text@.skip(start as int), prefix@);
        assert(output@ + Seq::<char>::empty() =~= output@);
    }
    output
}

/// Indents the lines of `input` by `prefix`: every line that is not blank is written
/// with `prefix` before it, and every line, the last one too, with a line feed after it.
pub fn indent(input: &str, prefix: &'static str) -> (output: String)
    ensures
        output@ == indented(input@, prefix@),
{
    let text = chars_of(input);
    let prefix = chars_of(prefix);
    let output = indent_chars(&text, &prefix);
    string_of(&output)
}

} // verus!
