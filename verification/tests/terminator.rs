use ascii::AsciiString;
use ascii_read::terminator::{strip_line_terminator, CARRIAGE_RETURN, LINE_FEED};

fn stripped(text: &str) -> AsciiString {
    let mut line = AsciiString::from_ascii(text).unwrap();
    strip_line_terminator(&mut line);
    line
}

#[test]
fn terminator_characters() {
    assert_eq!(LINE_FEED, '\u{a}');
    assert_eq!(CARRIAGE_RETURN, '\u{d}');
}

#[test]
fn strips_a_line_feed() {
    assert_eq!(stripped("hola\n"), "hola");
}

#[test]
fn strips_a_carriage_return_and_line_feed() {
    assert_eq!(stripped("hola\r\n"), "hola");
}

#[test]
fn keeps_a_line_without_terminator() {
    assert_eq!(stripped("hola"), "hola");
}

#[test]
fn keeps_a_lone_carriage_return() {
    assert_eq!(stripped("hola\r"), "hola\r");
    assert_eq!(stripped("\r"), "\r");
}

#[test]
fn strips_one_terminator_only() {
    assert_eq!(stripped("hola\n\n"), "hola\n");
    assert_eq!(stripped("hola\r\r\n"), "hola\r");
    assert_eq!(stripped("hola\r\n\r\n"), "hola\r\n");
    assert_eq!(stripped("hola\n\r"), "hola\n\r");
}

#[test]
fn strips_a_bare_terminator_to_nothing() {
    assert_eq!(stripped("\n"), "");
    assert_eq!(stripped("\r\n"), "");
    assert_eq!(stripped(""), "");
}

#[test]
fn keeps_what_stands_before_the_terminator() {
    assert_eq!(stripped(" a\rb\tc \n"), " a\rb\tc ");
}
