//! The `ascii` crate's string types, as far as this library uses them.
//!
//! Nothing in this file is proved. Each item states what the `ascii` crate
//! does, and the rest of the library is verified against these statements.

use ascii::{AsAsciiStrError, AsciiChar, AsciiStr, AsciiString};
use vstd::prelude::*;
use vstd::utf8::is_ascii_chars;

verus! {

/// `ascii::AsciiChar`, one ASCII character.
#[verifier::external_type_specification]
#[verifier::external_body]
pub struct ExAsciiChar(AsciiChar);

/// `ascii::AsciiStr`, a borrowed run of ASCII characters.
#[verifier::external_type_specification]
#[verifier::external_body]
pub struct ExAsciiStr(AsciiStr);

/// `ascii::AsciiString`, a growable buffer of ASCII characters.
#[verifier::external_type_specification]
#[verifier::external_body]
pub struct ExAsciiString(AsciiString);

/// `ascii::AsAsciiStrError`, the fault that `AsciiStr::from_ascii` reports.
#[verifier::external_type_specification]
#[verifier::external_body]
pub struct ExAsAsciiStrError(AsAsciiStrError);

/// The characters that an `AsciiString` holds, first to last.
pub uninterp spec fn ascii_view(s: AsciiString) -> Seq<char>;

/// The characters that an `AsciiStr` holds, first to last.
pub uninterp spec fn ascii_str_view(s: &AsciiStr) -> Seq<char>;

/// The index that an `AsAsciiStrError` carries, which its `valid_up_to`
/// returns.
pub uninterp spec fn fault_index(e: AsAsciiStrError) -> usize;

/// Whether `i` is the place of the first character of `text` that is not
/// ASCII.
pub open spec fn first_non_ascii_at(text: Seq<char>, i: int) -> bool {
    &&& 0 <= i < text.len()
    &&& text[i] > '\u{7f}'
    &&& is_ascii_chars(text.take(i))
}

/// `AsciiString::new` returns a buffer that holds no character.
pub assume_specification[ AsciiString::new ]() -> (s: AsciiString)
    ensures
        ascii_view(s) == Seq::<char>::empty(),
;

/// `AsciiString::len` returns the number of characters held.
pub assume_specification[ AsciiString::len ](s: &AsciiString) -> (n: usize)
    ensures
        n == ascii_view(*s).len(),
;

/// `AsciiString::is_empty` tells whether no character is held.
pub assume_specification[ AsciiString::is_empty ](s: &AsciiString) -> (b: bool)
    ensures
        b == (ascii_view(*s).len() == 0),
;

/// `AsciiString::push_str` appends the characters of `tail` and keeps what
/// the buffer held before.
pub assume_specification[ AsciiString::push_str ](s: &mut AsciiString, tail: &AsciiStr)
    ensures
        ascii_view(*final(s)) == ascii_view(*old(s)) + ascii_str_view(tail),
;

/// `AsciiString::pop` removes the last character and returns it; on an empty
/// buffer it returns `None` and changes nothing. The character is handed out
/// as a `char`.
#[verifier::external_body]
pub(crate) fn pop_char(s: &mut AsciiString) -> (c: Option<char>)
    ensures
        ascii_view(*old(s)).len() == 0 ==> c is None,
        ascii_view(*old(s)).len() == 0 ==> ascii_view(*final(s)) == ascii_view(*old(s)),
        ascii_view(*old(s)).len() > 0 ==> c == Some(ascii_view(*old(s)).last()),
        ascii_view(*old(s)).len() > 0 ==> ascii_view(*final(s)) == ascii_view(*old(s)).drop_last(),
{
    s.pop().map(AsciiChar::as_char)
}

/// Indexing an `AsciiString` by a `usize` gives the character at that place,
/// handed out as a `char`. Out of bounds it panics, so the index must be in
/// bounds.
#[verifier::external_body]
pub(crate) fn char_at(s: &AsciiString, i: usize) -> (c: char)
    requires
        i < ascii_view(*s).len(),
    ensures
        c == ascii_view(*s)[i as int],
{
    s[i].as_char()
}

/// `AsciiStr::from_ascii` on a `str`. It succeeds exactly when every
/// character of `text` is ASCII, and the result then holds those characters
/// unchanged. Otherwise the fault carries the place of the first character
/// that is not ASCII: the characters before it take one byte each, so its
/// place among the bytes is its place among the characters.
#[verifier::external_body]
pub(crate) fn ascii_str_of(text: &str) -> (r: Result<&AsciiStr, AsAsciiStrError>)
    ensures
        r is Ok <==> is_ascii_chars(text@),
        r matches Ok(a) ==> ascii_str_view(a) == text@,
        r matches Err(e) ==> first_non_ascii_at(text@, fault_index(e) as int),
{
    AsciiStr::from_ascii(text)
}

} // verus!
