//! Line terminators: what counts as one, and how a line loses it.

use crate::buffer::{ascii_view, char_at, pop_char};
use ascii::AsciiString;
use vstd::prelude::*;
use vstd::utf8::is_ascii_chars;

verus! {

/// The line-feed character, which ends a line.
pub const LINE_FEED: char = '\n';

/// The carriage-return character, which may stand before the line feed.
pub const CARRIAGE_RETURN: char = '\r';

/// A line without its terminator.
///
/// One trailing line feed is dropped. If one was dropped and what is left
/// ends in a carriage return, that is dropped too. A line that does not end
/// in a line feed is kept whole.
pub open spec fn without_terminator(line: Seq<char>) -> Seq<char> {
    if line.len() > 0 && line.last() == LINE_FEED {
        let rest = line.drop_last();
        if rest.len() > 0 && rest.last() == CARRIAGE_RETURN {
            rest.drop_last()
        } else {
            rest
        }
    } else {
        line
    }
}

/// Whether `line` holds a line feed nowhere but, at most, at its end: the
/// shape of what one line read delivers.
pub open spec fn is_single_line(line: Seq<char>) -> bool {
    forall|i: int| 0 <= i < line.len() - 1 ==> line[i] != LINE_FEED
}

/// Strips the terminator from `line` in place.
pub fn strip_line_terminator(line: &mut AsciiString)
    ensures
        ascii_view(*final(line)) == without_terminator(ascii_view(*old(line))),
{
    let len: usize = line.len();
    if len > 0 && char_at(line, len - 1) == LINE_FEED {
        let _ = pop_char(line);
        if !line.is_empty() && char_at(line, line.len() - 1) == CARRIAGE_RETURN {
            let _ = pop_char(line);
        }
    }
}

/// A line loses exactly its terminator: a line feed, or a carriage return
/// and a line feed, put behind `body` comes off again and leaves `body`.
/// With the line feed alone, this holds unless `body` itself ends in a
/// carriage return, which would then count as part of the terminator.
pub proof fn lemma_terminator_is_stripped(body: Seq<char>)
    ensures
        without_terminator(body.push(CARRIAGE_RETURN).push(LINE_FEED)) == body,
        body.len() == 0 || body.last() != CARRIAGE_RETURN ==> without_terminator(
            body.push(LINE_FEED),
        ) == body,
{
}

/// A line that does not end in a line feed is kept whole. In particular a
/// trailing carriage return that no line feed follows stays where it is.
pub proof fn lemma_line_without_line_feed_is_kept(line: Seq<char>)
    requires
        line.len() == 0 || line.last() != LINE_FEED,
    ensures
        without_terminator(line) == line,
{
}

/// Stripping only shortens: what is left is the front of the line, at most
/// two characters shorter, and ASCII if the line was.
pub proof fn lemma_stripped_is_prefix(line: Seq<char>)
    ensures
        without_terminator(line).len() <= line.len() <= without_terminator(line).len() + 2,
        without_terminator(line) == line.take(without_terminator(line).len() as int),
        is_ascii_chars(line) ==> is_ascii_chars(without_terminator(line)),
{
}

/// What is left of a single line holds no line feed at all: it ends neither
/// in a line feed nor in a carriage return and a line feed.
pub proof fn lemma_stripped_line_has_no_line_feed(line: Seq<char>)
    requires
        is_single_line(line),
    ensures
        forall|i: int| 0 <= i < without_terminator(line).len() ==> without_terminator(line)[i]
            != LINE_FEED,
{
}

} // verus!
