//! The lines of a source, one at a time.

use crate::buffer::{ascii_view, fault_index, first_non_ascii_at};
use crate::error::AsciiReadError;
use crate::reader::{buffer_after, reported, AsciiBufRead};
use crate::terminator::{strip_line_terminator, without_terminator};
use ascii::AsciiString;
use vstd::prelude::*;
use vstd::utf8::is_ascii_chars;

verus! {

/// Whether `item` is what one step of the iteration yields, given what the
/// read of that step reported (`read`) and the line that it left in the
/// step's buffer.
///
/// A read of zero bytes ends the iteration. Any other successful read yields
/// the line without its terminator. A failed read yields the failure.
pub open spec fn yielded(
    read: Result<usize, AsciiReadError>,
    line: Seq<char>,
    item: Option<Result<AsciiString, AsciiReadError>>,
) -> bool {
    match read {
        Ok(count) => if count == 0 {
            item is None
        } else {
            item matches Some(Ok(stripped)) && ascii_view(stripped) == without_terminator(line)
        },
        Err(fault) => item == Some(Err::<AsciiString, AsciiReadError>(fault)),
    }
}

/// Whether `item` is what one step of the iteration yields when the source's
/// read returned `outcome` and delivered `text`.
///
/// A fault of the source is yielded as it is. Text that is not all ASCII
/// yields a decode fault that points at its first character outside ASCII.
/// ASCII text with a byte count of zero ends the iteration, and with any
/// other count it is yielded without its terminator.
pub open spec fn stepped(
    outcome: Result<usize, std::io::Error>,
    text: Seq<char>,
    item: Option<Result<AsciiString, AsciiReadError>>,
) -> bool {
    match outcome {
        Err(fault) => item == Some(
            Err::<AsciiString, AsciiReadError>(AsciiReadError::Io(fault)),
        ),
        Ok(count) => if !is_ascii_chars(text) {
            item matches Some(Err(AsciiReadError::Ascii(fault))) && first_non_ascii_at(
                text,
                fault_index(fault) as int,
            )
        } else if count == 0 {
            item is None
        } else {
            item matches Some(Ok(line)) && ascii_view(line) == without_terminator(text)
        },
    }
}

/// Decides one step of the iteration from the result of its read and the
/// buffer that the read filled.
pub fn item_of_read(
    read: Result<usize, AsciiReadError>,
    line: AsciiString,
) -> (item: Option<Result<AsciiString, AsciiReadError>>)
    ensures
        yielded(read, ascii_view(line), item),
{
    match read {
        Ok(count) => {
            if count == 0 {
                None
            } else {
                let mut line = line;
                strip_line_terminator(&mut line);
                Some(Ok(line))
            }
        },
        Err(fault) => Some(Err(fault)),
    }
}

/// A step is a read into an empty buffer followed by the decision on what
/// the read left there.
pub proof fn lemma_read_then_decide_is_a_step(
    outcome: Result<usize, std::io::Error>,
    text: Seq<char>,
    read: Result<usize, AsciiReadError>,
    item: Option<Result<AsciiString, AsciiReadError>>,
)
    requires
        reported(outcome, text, read),
        yielded(read, buffer_after(Seq::<char>::empty(), outcome, text), item),
    ensures
        stepped(outcome, text, item),
{
}

/// A step never yields a line from text that holds a character outside
/// ASCII: it yields a failure, the source's own fault or a decode fault.
pub proof fn lemma_non_ascii_yields_no_line(
    outcome: Result<usize, std::io::Error>,
    text: Seq<char>,
    item: Option<Result<AsciiString, AsciiReadError>>,
)
    requires
        exists|i: int| 0 <= i < text.len() && text[i] > '\u{7f}',
        stepped(outcome, text, item),
    ensures
        item matches Some(Err(_)),
        outcome is Ok ==> item matches Some(Err(AsciiReadError::Ascii(_))),
{
}

/// An iterator over the lines of an [`AsciiBufRead`], made by its
/// `ascii_lines`.
///
/// It is active until a read returns zero bytes, and exhausted from then on:
/// an exhausted iterator does not touch its source again. A failed read is
/// yielded and leaves the iterator active, so the next step reads on.
#[derive(Debug)]
pub struct AsciiLines<B> {
    buf: B,
    exhausted: bool,
}

impl<B> AsciiLines<B> {
    /// The source that the lines are read from.
    pub closed spec fn source(&self) -> B {
        self.buf
    }

    /// Whether the iteration has ended.
    pub closed spec fn is_exhausted(&self) -> bool {
        self.exhausted
    }

    pub(crate) fn new(source: B) -> (lines: Self)
        ensures
            lines.source() == source,
            !lines.is_exhausted(),
    {
        AsciiLines { buf: source, exhausted: false }
    }
}

impl<B: AsciiBufRead> AsciiLines<B> {
    /// Yields the next line, without its terminator, or the failure of the
    /// read, or `None` once the stream has ended.
    ///
    /// An active iterator makes one `read_ascii_line` on its source, into a
    /// fresh buffer, and yields what that step gives. It is exhausted
    /// afterwards exactly if it yielded `None`. An exhausted iterator yields
    /// `None` and changes nothing.
    pub fn next(&mut self) -> (item: Option<Result<AsciiString, AsciiReadError>>)
        ensures
            old(self).is_exhausted() ==> item is None && *final(self) == *old(self),
            final(self).is_exhausted() <==> item is None,
            !old(self).is_exhausted() ==> exists|
                outcome: Result<usize, std::io::Error>,
                text: Seq<char>,
            | #[trigger] stepped(outcome, text, item),
            item matches Some(Ok(line)) ==> is_ascii_chars(ascii_view(line)),
    {
        if self.exhausted {
            return None;
        }
        let mut line = AsciiString::new();
        let read = self.buf.read_ascii_line(&mut line);
        let ghost filled = ascii_view(line);
        let item = item_of_read(read, line);
        proof {
            let (outcome, text) = choose|
                outcome: Result<usize, std::io::Error>,
                text: Seq<char>,
            |
                #[trigger] reported(outcome, text, read)
                    && filled == buffer_after(Seq::<char>::empty(), outcome, text);
            lemma_read_then_decide_is_a_step(outcome, text, read, item);
        }
        if item.is_none() {
            self.exhausted = true;
        }
        item
    }
}

} // verus!
