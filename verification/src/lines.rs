//! Splitting a text into its lines.

use vstd::prelude::*;
use vstd::std_specs::iter::IteratorSpec;
use vstd::string::*;

verus! {

/// The number of characters of `text` before its first line feed, or its
/// length where it holds none.
pub open spec fn line_end(text: Seq<char>) -> nat
    decreases text.len(),
{
    if text.len() == 0 || text[0] == '\n' {
        0
    } else {
        1 + line_end(text.drop_first())
    }
}

/// `line` without the carriage return at its end, if it has one there.
pub open spec fn without_return(line: Seq<char>) -> Seq<char> {
    if line.len() > 0 && line.last() == '\r' {
        line.drop_last()
    } else {
        line
    }
}

/// The lines of `text`, in order. A line ends at a line feed, or at a
/// carriage return directly followed by one; neither belongs to the line.
/// What follows the last line feed is a line of its own unless it is empty,
/// and is taken as it stands. The empty text has no lines.
pub open spec fn lines_of(text: Seq<char>) -> Seq<Seq<char>>
    decreases text.len(),
{
    let end = line_end(text) as int;
    if text.len() == 0 {
        Seq::empty()
    } else if end >= text.len() {
        seq![text]
    } else {
        seq![without_return(text.subrange(0, end))] + lines_of(
            text.subrange(end + 1, text.len() as int),
        )
    }
}

/// A position with no line feed before it, which is the end of the text or
/// holds a line feed, is the text's `line_end`.
pub proof fn lemma_line_end_is(text: Seq<char>, at: int)
    requires
        0 <= at <= text.len(),
        forall|j: int| 0 <= j < at ==> text[j] != '\n',
        at < text.len() ==> text[at] == '\n',
    ensures
        line_end(text) == at,
    decreases text.len(),
{
    if at > 0 {
        let rest = text.drop_first();
        assert forall|j: int| 0 <= j < at - 1 implies rest[j] != '\n' by {
            assert(rest[j] == text[j + 1]);
        }
        lemma_line_end_is(rest, at - 1);
    }
}

/// `String::push`: the character is appended and nothing else changes.
#[verifier::external_body]
fn push_char(text: &mut String, c: char)
    ensures
        final(text)@ == old(text)@.push(c),
{
    text.push(c);
}

/// Splits `text` into its lines, each as a string of its own.
pub fn split_lines(text: &str) -> (lines: Vec<String>)
    ensures
        lines.deep_view() == lines_of(text@),
{
    let mut lines: Vec<String> = Vec::new();
    let mut line = String::new();
    let mut held_return = false;
    let ghost start: int = 0;
    proof {
        assert(text@.subrange(0, text@.len() as int) == text@);
        assert(lines.deep_view() + lines_of(text@) == lines_of(text@));
    }
    for c in it: text.chars()
        invariant
            it.seq() == text@,
            0 <= start <= it.index(),
            forall|j: int| start <= j < it.index() ==> text@[j] != '\n',
            text@.subrange(start, it.index() as int) == if held_return {
                line@.push('\r')
            } else {
                line@
            },
            !held_return ==> line@.len() == 0 || line@.last() != '\r',
            lines_of(text@) == lines.deep_view() + lines_of(
                text@.subrange(start, text@.len() as int),
            ),
    {
        let ghost at = it.index() as int;
        assert(c == text@[at]);
        if c == '\n' {
            proof {
                let rest = text@.subrange(start, text@.len() as int);
                lemma_line_end_is(rest, at - start);
                assert(rest.subrange(0, at - start) == text@.subrange(start, at));
                assert(rest.subrange(at - start + 1, rest.len() as int) == text@.subrange(
                    at + 1,
                    text@.len() as int,
                ));
                assert(without_return(text@.subrange(start, at)) == line@);
                assert(lines.deep_view().push(line@) == lines.deep_view() + seq![line@]);
            }
            lines.push(line);
            line = String::new();
            held_return = false;
            proof {
                start = at + 1;
            }
        } else {
            if held_return {
                push_char(&mut line, '\r');
            }
            if c == '\r' {
                held_return = true;
            } else {
                push_char(&mut line, c);
                held_return = false;
            }
        }
    }
    if held_return {
        push_char(&mut line, '\r');
    }
    proof {
        let rest = text@.subrange(start, text@.len() as int);
        lemma_line_end_is(rest, rest.len() as int);
        assert(rest == line@);
    }
    if !line.as_str().is_empty() {
        lines.push(line);
    }
    lines
}

} // verus!
