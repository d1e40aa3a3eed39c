use ascii::AsciiString;
use ascii_read::reader::append_line_read;
use ascii_read::{AsciiBufRead, AsciiReadError};
use std::io::{BufRead, BufReader, Error, ErrorKind};

/// A buffered source over bytes in memory.
struct Bytes<'a>(BufReader<&'a [u8]>);

impl<'a> Bytes<'a> {
    fn new(bytes: &'a [u8]) -> Self {
        Bytes(BufReader::new(bytes))
    }
}

impl AsciiBufRead for Bytes<'_> {
    fn read_line(&mut self, text: &mut String) -> Result<usize, Error> {
        self.0.read_line(text)
    }
}

/// A source whose every read faults.
struct Broken;

impl AsciiBufRead for Broken {
    fn read_line(&mut self, _text: &mut String) -> Result<usize, Error> {
        Err(Error::new(ErrorKind::TimedOut, "the line is dead"))
    }
}

fn ascii(text: &str) -> AsciiString {
    AsciiString::from_ascii(text).unwrap()
}

#[test]
fn test_read_ascii_line_bufreader() {
    let mut reader = Bytes::new(b"this is a test file\nsecond line\nhola\n");
    let mut asciistring = AsciiString::new();
    loop {
        let n = reader
            .read_ascii_line(&mut asciistring)
            .expect("Panic at read_ascii_line()");
        if n == 0 {
            break;
        }
    }
    assert_eq!(asciistring, "this is a test file\nsecond line\nhola\n");
}

#[test]
fn read_returns_the_length_of_the_line_with_its_terminator() {
    let mut reader = Bytes::new(b"this is a test file\nsecond line\nhola\n");
    let mut buf = AsciiString::new();
    assert_eq!(reader.read_ascii_line(&mut buf).unwrap(), 20);
    assert_eq!(buf, "this is a test file\n");
    assert_eq!(reader.read_ascii_line(&mut buf).unwrap(), 12);
    assert_eq!(buf, "this is a test file\nsecond line\n");
    assert_eq!(reader.read_ascii_line(&mut buf).unwrap(), 5);
    assert_eq!(buf, "this is a test file\nsecond line\nhola\n");
    assert_eq!(reader.read_ascii_line(&mut buf).unwrap(), 0);
    assert_eq!(buf, "this is a test file\nsecond line\nhola\n");
}

#[test]
fn read_appends_behind_what_the_buffer_holds() {
    let mut reader = Bytes::new(b"hola\r\n");
    let mut buf = ascii("kept: ");
    assert_eq!(reader.read_ascii_line(&mut buf).unwrap(), 6);
    assert_eq!(buf, "kept: hola\r\n");
    assert_eq!(buf.len(), 12);
}

#[test]
fn read_of_a_last_line_without_terminator() {
    let mut reader = Bytes::new(b"hola");
    let mut buf = AsciiString::new();
    assert_eq!(reader.read_ascii_line(&mut buf).unwrap(), 4);
    assert_eq!(buf, "hola");
    assert_eq!(reader.read_ascii_line(&mut buf).unwrap(), 0);
    assert_eq!(buf, "hola");
}

#[test]
fn end_of_stream_is_reported_again_and_again() {
    let mut reader = Bytes::new(b"hola\n");
    let mut buf = AsciiString::new();
    assert_eq!(reader.read_ascii_line(&mut buf).unwrap(), 5);
    for _ in 0..3 {
        assert_eq!(reader.read_ascii_line(&mut buf).unwrap(), 0);
        assert_eq!(buf, "hola\n");
    }
}

#[test]
fn empty_source_is_at_its_end() {
    let mut reader = Bytes::new(b"");
    let mut buf = AsciiString::new();
    assert_eq!(reader.read_ascii_line(&mut buf).unwrap(), 0);
    assert!(buf.is_empty());
}

#[test]
fn non_ascii_text_is_a_decode_fault() {
    let mut reader = Bytes::new("ab\u{e9}c\nnext\n".as_bytes());
    let mut buf = AsciiString::new();
    match reader.read_ascii_line(&mut buf) {
        Err(AsciiReadError::Ascii(fault)) => assert_eq!(fault.valid_up_to(), 2),
        other => panic!("expected a decode fault, got {:?}", other),
    }
}

#[test]
fn failed_read_appends_nothing() {
    let mut reader = Bytes::new("ab\u{e9}c\nnext\n".as_bytes());
    let mut buf = ascii("kept");
    assert!(reader.read_ascii_line(&mut buf).is_err());
    assert_eq!(buf, "kept");
    // The rejected line is consumed: the next read delivers the line after it.
    assert_eq!(reader.read_ascii_line(&mut buf).unwrap(), 5);
    assert_eq!(buf, "keptnext\n");
}

#[test]
fn fault_of_the_source_is_passed_on() {
    let mut buf = ascii("kept");
    match Broken.read_ascii_line(&mut buf) {
        Err(AsciiReadError::Io(fault)) => {
            assert_eq!(fault.kind(), ErrorKind::TimedOut);
            assert_eq!(fault.to_string(), "the line is dead");
        }
        other => panic!("expected the source's fault, got {:?}", other),
    }
    assert_eq!(buf, "kept");
}

#[test]
fn bytes_that_are_no_text_are_a_fault_of_the_source() {
    let mut reader = Bytes::new(&[b'a', 0xff, b'\n']);
    let mut buf = AsciiString::new();
    match reader.read_ascii_line(&mut buf) {
        Err(AsciiReadError::Io(fault)) => assert_eq!(fault.kind(), ErrorKind::InvalidData),
        other => panic!("expected the source's fault, got {:?}", other),
    }
    assert!(buf.is_empty());
}

#[test]
fn append_accepts_ascii_text() {
    let mut buf = ascii("ab");
    let result = append_line_read(&mut buf, Ok(5), "hola\n");
    assert_eq!(result.unwrap(), 5);
    assert_eq!(buf, "abhola\n");
}

#[test]
fn append_reports_the_count_of_the_source() {
    let mut buf = AsciiString::new();
    assert_eq!(append_line_read(&mut buf, Ok(0), "").unwrap(), 0);
    assert!(buf.is_empty());
    assert_eq!(append_line_read(&mut buf, Ok(7), "x").unwrap(), 7);
    assert_eq!(buf, "x");
}

#[test]
fn append_rejects_non_ascii_text() {
    let mut buf = ascii("ab");
    match append_line_read(&mut buf, Ok(3), "\u{e9}\n") {
        Err(AsciiReadError::Ascii(fault)) => assert_eq!(fault.valid_up_to(), 0),
        other => panic!("expected a decode fault, got {:?}", other),
    }
    assert_eq!(buf, "ab");
    match append_line_read(&mut buf, Ok(8), "hola \u{20ac}\n") {
        Err(AsciiReadError::Ascii(fault)) => assert_eq!(fault.valid_up_to(), 5),
        other => panic!("expected a decode fault, got {:?}", other),
    }
    assert_eq!(buf, "ab");
}

#[test]
fn append_accepts_the_whole_ascii_range() {
    let mut buf = AsciiString::new();
    assert_eq!(append_line_read(&mut buf, Ok(2), "\u{0}\u{7f}").unwrap(), 2);
    assert_eq!(buf.len(), 2);
    assert_eq!(buf.as_bytes(), &[0u8, 0x7f]);
    assert!(append_line_read(&mut buf, Ok(2), "\u{80}").is_err());
    assert_eq!(buf.len(), 2);
}

#[test]
fn append_passes_a_fault_on_and_drops_the_text() {
    let mut buf = ascii("ab");
    let fault = Error::new(ErrorKind::UnexpectedEof, "cut short");
    match append_line_read(&mut buf, Err(fault), "partial") {
        Err(AsciiReadError::Io(fault)) => {
            assert_eq!(fault.kind(), ErrorKind::UnexpectedEof);
            assert_eq!(fault.to_string(), "cut short");
        }
        other => panic!("expected the source's fault, got {:?}", other),
    }
    assert_eq!(buf, "ab");
}
