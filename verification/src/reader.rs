//! Reading one line: the source's own read, then the validation that lets
//! only ASCII into the buffer.

use crate::buffer::{ascii_str_of, ascii_view, fault_index, first_non_ascii_at};
use crate::error::AsciiReadError;
use crate::lines::AsciiLines;
use ascii::AsciiString;
use vstd::prelude::*;
use vstd::utf8::is_ascii_chars;

verus! {

/// Whether a read is accepted: the source did not fault, and every character
/// of the text it delivered is ASCII.
pub open spec fn accepted(outcome: Result<usize, std::io::Error>, text: Seq<char>) -> bool {
    outcome is Ok && is_ascii_chars(text)
}

/// What the buffer holds after a read: what it held before, followed by the
/// text if the read is accepted, and by nothing if it is not.
pub open spec fn buffer_after(
    before: Seq<char>,
    outcome: Result<usize, std::io::Error>,
    text: Seq<char>,
) -> Seq<char> {
    if accepted(outcome, text) {
        before + text
    } else {
        before
    }
}

/// Whether `result` is what the reader reports of a read in which the source
/// returned `outcome` and delivered `text`.
///
/// A fault of the source is passed on as it is. Without a fault, ASCII text
/// gives the source's byte count, and any other text gives a decode fault
/// that points at the first character that is not ASCII.
pub open spec fn reported(
    outcome: Result<usize, std::io::Error>,
    text: Seq<char>,
    result: Result<usize, AsciiReadError>,
) -> bool {
    match outcome {
        Err(fault) => result == Err::<usize, AsciiReadError>(AsciiReadError::Io(fault)),
        Ok(count) => if is_ascii_chars(text) {
            result == Ok::<usize, AsciiReadError>(count)
        } else {
            result matches Err(AsciiReadError::Ascii(fault)) && first_non_ascii_at(
                text,
                fault_index(fault) as int,
            )
        },
    }
}

/// Finishes one read: given what the source's line read returned (`outcome`)
/// and the text it delivered, validates the text and appends it to `buf`.
///
/// The text is appended whole, terminator included, or not at all: a read
/// that fails leaves `buf` as it was.
pub fn append_line_read(
    buf: &mut AsciiString,
    outcome: Result<usize, std::io::Error>,
    text: &str,
) -> (result: Result<usize, AsciiReadError>)
    ensures
        reported(outcome, text@, result),
        ascii_view(*final(buf)) == buffer_after(ascii_view(*old(buf)), outcome, text@),
{
    match outcome {
        Err(fault) => Err(AsciiReadError::Io(fault)),
        Ok(count) => match ascii_str_of(text) {
            Ok(line) => {
                buf.push_str(line);
                Ok(count)
            },
            Err(fault) => Err(AsciiReadError::Ascii(fault)),
        },
    }
}

/// An ASCII line is read whole. When the source delivers ASCII text and
/// returns its length as the byte count, the reader reports that count, and
/// the buffer gains exactly that text behind what it held.
pub proof fn lemma_ascii_line_is_appended_whole(
    before: Seq<char>,
    text: Seq<char>,
    result: Result<usize, AsciiReadError>,
)
    requires
        is_ascii_chars(text),
        text.len() <= usize::MAX,
        reported(Ok(text.len() as usize), text, result),
    ensures
        result == Ok::<usize, AsciiReadError>(text.len() as usize),
        buffer_after(before, Ok(text.len() as usize), text) == before + text,
        buffer_after(before, Ok(text.len() as usize), text).len() == before.len() + text.len(),
        buffer_after(before, Ok(text.len() as usize), text).skip(before.len() as int) == text,
{
}

/// Text that holds a character outside ASCII is never accepted. Unless the
/// source itself faulted, the reader reports a decode fault that points at
/// the first such character, and the buffer stays as it was.
pub proof fn lemma_non_ascii_is_rejected(
    before: Seq<char>,
    outcome: Result<usize, std::io::Error>,
    text: Seq<char>,
    result: Result<usize, AsciiReadError>,
)
    requires
        outcome is Ok,
        exists|i: int| 0 <= i < text.len() && text[i] > '\u{7f}',
        reported(outcome, text, result),
    ensures
        result matches Err(AsciiReadError::Ascii(fault)) && first_non_ascii_at(
            text,
            fault_index(fault) as int,
        ),
        buffer_after(before, outcome, text) == before,
{
}

/// The end of the stream is stable. As long as the source answers with a
/// read of zero bytes that delivers nothing, the reader reports `Ok(0)` and
/// leaves the buffer as it was, whatever the buffer holds and however often
/// the read is repeated.
pub proof fn lemma_end_of_stream_is_stable(
    before: Seq<char>,
    first: Result<usize, AsciiReadError>,
    second: Result<usize, AsciiReadError>,
)
    requires
        reported(Ok(0), Seq::<char>::empty(), first),
        reported(Ok(0), Seq::<char>::empty(), second),
    ensures
        first == Ok::<usize, AsciiReadError>(0),
        second == first,
        buffer_after(before, Ok(0), Seq::<char>::empty()) == before,
        buffer_after(
            buffer_after(before, Ok(0), Seq::<char>::empty()),
            Ok(0),
            Seq::<char>::empty(),
        ) == before,
{
}

/// A buffered source of text that can be read line by line as ASCII.
///
/// An implementor supplies `read_line`; the other two methods are built on
/// it. Nothing is assumed of `read_line`, so what `read_ascii_line` promises
/// holds of every source.
pub trait AsciiBufRead {
    /// Reads up to and including the next line feed, or to the end of the
    /// stream, and appends what was read to `text`. Returns the number of
    /// bytes read; 0 means that the stream has ended.
    fn read_line(&mut self, text: &mut String) -> Result<usize, std::io::Error>;

    /// Reads one line and appends it, terminator included, to `buf`.
    ///
    /// Makes exactly one `read_line` on the source, into an empty text
    /// buffer, and finishes it as `append_line_read` does. On success the
    /// result is the byte count that the source returned; `Ok(0)` is the
    /// end of the stream.
    fn read_ascii_line(&mut self, buf: &mut AsciiString) -> (result: Result<usize, AsciiReadError>)
        ensures
            exists|outcome: Result<usize, std::io::Error>, text: Seq<char>|
                #[trigger] reported(outcome, text, result)
                    && ascii_view(*final(buf)) == buffer_after(ascii_view(*old(buf)), outcome, text),
            result is Err ==> ascii_view(*final(buf)) == ascii_view(*old(buf)),
            result is Ok ==> exists|text: Seq<char>|
                #[trigger] is_ascii_chars(text)
                    && ascii_view(*final(buf)) == ascii_view(*old(buf)) + text,
    {
        let mut text = String::new();
        let outcome = self.read_line(&mut text);
        append_line_read(buf, outcome, text.as_str())
    }

    /// Turns the source into an iterator over its lines. Each line comes
    /// without its line feed or carriage return and line feed.
    fn ascii_lines(self) -> (lines: AsciiLines<Self>) where Self: Sized
        ensures
            lines.source() == self,
            !lines.is_exhausted(),
    {
        AsciiLines::new(self)
    }
}

} // verus!
