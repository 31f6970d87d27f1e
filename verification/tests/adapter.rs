use xterm_backend::crossterm::{FlushError, XtermJsCrosstermBackend};
use xterm_backend::xterm::Terminal;

#[test]
fn write_reports_full_length() {
    let mut b = XtermJsCrosstermBackend::new(Terminal::new());
    assert_eq!(b.write(b"hello "), 6);
    assert_eq!(b.write(b""), 0);
    assert_eq!(b.write(&[0xFF, 0xFE]), 2);
}

#[test]
fn write_alone_delivers_nothing() {
    let mut b = XtermJsCrosstermBackend::new(Terminal::new());
    b.write(b"pending");
    assert_eq!(b.terminal.write_count(), 0);
}

#[test]
fn write_then_flush_delivers_once() {
    let mut b = XtermJsCrosstermBackend::new(Terminal::new());
    b.write(b"hi");
    assert!(b.flush().is_ok());
    assert_eq!(b.terminal.write_count(), 1);
    assert_eq!(b.terminal.written(0).as_str(), "hi");
}

#[test]
fn hello_world_is_batched_into_one_call() {
    let mut b = XtermJsCrosstermBackend::new(Terminal::new());
    b.write(b"hello ");
    b.write(b"world");
    assert!(b.flush().is_ok());
    assert_eq!(b.terminal.write_count(), 1);
    assert_eq!(b.terminal.written(0).as_str(), "hello world");
}

#[test]
fn many_writes_one_delivery() {
    let mut b = XtermJsCrosstermBackend::new(Terminal::new());
    b.write(b"a");
    b.write(b"bc");
    b.write(b"");
    b.write(b"def");
    assert!(b.flush().is_ok());
    assert_eq!(b.terminal.write_count(), 1);
    assert_eq!(b.terminal.written(0).as_str(), "abcdef");
}

#[test]
fn multibyte_text_survives_split_writes() {
    let bytes = "héllo → wörld".as_bytes();
    let mut b = XtermJsCrosstermBackend::new(Terminal::new());
    // Split inside a multi-byte character: bytes are only decoded at flush.
    b.write(&bytes[..2]);
    b.write(&bytes[2..]);
    assert!(b.flush().is_ok());
    assert_eq!(b.terminal.write_count(), 1);
    assert_eq!(b.terminal.written(0).as_str(), "héllo → wörld");
}

#[test]
fn flush_on_empty_buffer_succeeds_silently() {
    let mut b = XtermJsCrosstermBackend::new(Terminal::new());
    assert!(b.flush().is_ok());
    assert!(b.flush().is_ok());
    assert_eq!(b.terminal.write_count(), 0);
}

#[test]
fn malformed_bytes_fail_and_are_discarded() {
    let mut b = XtermJsCrosstermBackend::new(Terminal::new());
    b.write(&[0xFF, 0xFE]);
    assert_eq!(b.flush(), Err(FlushError::MalformedOutputEncoding));
    assert_eq!(b.terminal.write_count(), 0);
    // The bytes are lost, not retried: the next flush is a clean no-op.
    assert_eq!(b.flush(), Ok(()));
    assert_eq!(b.terminal.write_count(), 0);
}

#[test]
fn adapter_recovers_after_malformed_flush() {
    let mut b = XtermJsCrosstermBackend::new(Terminal::new());
    b.write(&[0xC3]);
    assert!(b.flush().is_err());
    b.write(b"ok");
    assert!(b.flush().is_ok());
    assert_eq!(b.terminal.write_count(), 1);
    assert_eq!(b.terminal.written(0).as_str(), "ok");
}

#[test]
fn read_through_access_flushes_first() {
    let mut b = XtermJsCrosstermBackend::new(Terminal::new());
    b.write(b"before");
    let t = b.flush_and_borrow().expect("valid text must flush");
    assert_eq!(t.write_count(), 1);
    assert_eq!(t.written(0).as_str(), "before");
}

#[test]
fn read_through_access_fails_on_malformed_buffer() {
    let mut b = XtermJsCrosstermBackend::new(Terminal::new());
    b.write(&[0x80]);
    assert!(b.flush_and_borrow().is_err());
    assert_eq!(b.terminal.write_count(), 0);
}

#[test]
fn read_through_access_on_empty_buffer_delivers_nothing() {
    let mut b = XtermJsCrosstermBackend::new(Terminal::new());
    let t = b.flush_and_borrow().expect("empty buffer must flush");
    assert_eq!(t.write_count(), 0);
}

#[test]
fn teardown_delivers_remaining_bytes() {
    let mut b = XtermJsCrosstermBackend::new(Terminal::new());
    b.write(b"last words");
    let (t, outcome) = b.into_terminal();
    assert_eq!(outcome, Ok(()));
    assert_eq!(t.write_count(), 1);
    assert_eq!(t.written(0).as_str(), "last words");
}

#[test]
fn teardown_with_empty_buffer_is_clean() {
    let b = XtermJsCrosstermBackend::new(Terminal::new());
    let (t, outcome) = b.into_terminal();
    assert_eq!(outcome, Ok(()));
    assert_eq!(t.write_count(), 0);
}

#[test]
fn teardown_reports_malformed_remainder() {
    let mut b = XtermJsCrosstermBackend::new(Terminal::new());
    b.write(b"fine");
    assert!(b.flush().is_ok());
    b.write(&[0xF0, 0x28]);
    let (t, outcome) = b.into_terminal();
    assert_eq!(outcome, Err(FlushError::MalformedOutputEncoding));
    assert_eq!(t.write_count(), 1);
    assert_eq!(t.written(0).as_str(), "fine");
}

#[test]
fn ordering_across_flushes_is_kept() {
    let mut b = XtermJsCrosstermBackend::new(Terminal::new());
    b.write(b"first");
    assert!(b.flush().is_ok());
    b.write(b"second");
    assert!(b.flush().is_ok());
    assert_eq!(b.terminal.write_count(), 2);
    assert_eq!(b.terminal.written(0).as_str(), "first");
    assert_eq!(b.terminal.written(1).as_str(), "second");
}

#[test]
fn widget_records_direct_writes_in_order() {
    let mut t = Terminal::new();
    t.write(String::from("one"));
    t.write(String::from("two"));
    assert_eq!(t.write_count(), 2);
    assert_eq!(t.written(0).as_str(), "one");
    assert_eq!(t.written(1).as_str(), "two");
}
