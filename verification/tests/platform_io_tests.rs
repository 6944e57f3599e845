use mnist_int8::io::{stdin, Error};
use mnist_int8::platform::Platform;

#[test]
fn platform_names() {
    assert_eq!(Platform::Nemu.fmt(), "nemu");
    assert_eq!(Platform::Qemu.fmt(), "qemu");
    assert_eq!(Platform::Spike.fmt(), "spike");
}

#[test]
fn platform_from_str_ignores_case() {
    assert_eq!(Platform::from_str("nemu"), Some(Platform::Nemu));
    assert_eq!(Platform::from_str("NeMu"), Some(Platform::Nemu));
    assert_eq!(Platform::from_str("QEMU"), Some(Platform::Qemu));
    assert_eq!(Platform::from_str("Spike"), Some(Platform::Spike));
    assert_eq!(Platform::from_str("x86"), None);
    assert_eq!(Platform::from_str(""), None);
    assert_eq!(Platform::from_str("nemu "), None);
}

#[test]
fn stdin_try_getc_pops_from_the_front() {
    let mut input = stdin();
    assert_eq!(input.try_getc(), None);
    input.feed(&[1, 2]);
    assert_eq!(input.try_getc(), Some(1));
    assert_eq!(input.try_getc(), Some(2));
    assert_eq!(input.try_getc(), None);
}

#[test]
fn stdin_read_line_stops_at_newline() {
    let mut input = stdin();
    input.feed(b"John Doe\nrest");
    let mut line: Vec<u8> = Vec::new();
    let count = input.read_line(&mut line).unwrap();
    assert_eq!(line, b"John Doe");
    assert_eq!(count, 9);
    // The line and its terminator are gone; the rest is still pending.
    assert_eq!(input.try_getc(), Some(b'r'));
}

#[test]
fn stdin_read_line_handles_crlf() {
    let mut input = stdin();
    input.feed(b"ab\r\ncd\n");
    let mut line: Vec<u8> = Vec::new();
    input.read_line(&mut line).unwrap();
    assert_eq!(line, b"ab");
    let mut second: Vec<u8> = Vec::new();
    input.read_line(&mut second).unwrap();
    assert_eq!(second, b"cd");
}

#[test]
fn stdin_read_line_without_terminator_fails_and_keeps_state() {
    let mut input = stdin();
    input.feed(b"partial");
    let mut line: Vec<u8> = Vec::new();
    assert_eq!(input.read_line(&mut line), Err(Error::WTF));
    assert_eq!(line, b"");
    // Feeding the terminator later completes the same line.
    input.feed(b" line\n");
    let count = input.read_line(&mut line).unwrap();
    assert_eq!(line, b"partial line");
    assert_eq!(count, 13);
}
