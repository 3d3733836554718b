use line_chat::framer::{FlushPoll, FramerError, LineFramer, LinePoll};
use line_chat::wire::find_terminator;

fn line_bytes(p: LinePoll) -> Vec<u8> {
    match p {
        LinePoll::Line(l) => l.to_vec(),
        LinePoll::NeedMoreInput => panic!("expected a line, got NeedMoreInput"),
        LinePoll::EndOfStream => panic!("expected a line, got EndOfStream"),
    }
}

#[test]
fn find_terminator_finds_first_crlf() {
    assert_eq!(find_terminator(b"ab\r\ncd\r\n"), Some(2));
    assert_eq!(find_terminator(b"a\rb\n\r\n"), Some(4));
    assert_eq!(find_terminator(b"\r\r\n"), Some(1));
    assert_eq!(find_terminator(b"abc\r"), None);
    assert_eq!(find_terminator(b""), None);
}

#[test]
fn yields_one_line_per_terminator() {
    let mut f = LineFramer::new();
    f.fill(b"one\r\n\r\nthree\r\ntail");
    assert_eq!(line_bytes(f.next_line()), b"one".to_vec());
    assert_eq!(line_bytes(f.next_line()), b"".to_vec());
    assert_eq!(line_bytes(f.next_line()), b"three".to_vec());
    assert!(matches!(f.next_line(), LinePoll::NeedMoreInput));
    assert_eq!(f.buffered(), 4);
}

#[test]
fn lone_cr_and_lf_stay_in_lines() {
    let mut f = LineFramer::new();
    f.fill(b"a\rb\nc\r\r\n");
    assert_eq!(line_bytes(f.next_line()), b"a\rb\nc\r".to_vec());
    assert!(matches!(f.next_line(), LinePoll::NeedMoreInput));
}

#[test]
fn encoded_line_decodes_to_itself() {
    let mut f = LineFramer::new();
    let content = b"hello world".to_vec();
    let mut wire = content.clone();
    wire.extend_from_slice(b"\r\n");
    f.fill(&wire);
    assert_eq!(line_bytes(f.next_line()), content);
    assert_eq!(f.buffered(), 0);
}

#[test]
fn no_line_before_both_terminator_bytes() {
    let mut f = LineFramer::new();
    f.fill(b"abc\r");
    assert!(matches!(f.next_line(), LinePoll::NeedMoreInput));
    f.fill(b"\n");
    assert_eq!(line_bytes(f.next_line()), b"abc".to_vec());
}

#[test]
fn line_found_at_close_comes_before_end_of_stream() {
    let mut f = LineFramer::new();
    f.fill(b"last\r\nunterminated");
    f.mark_closed();
    assert_eq!(line_bytes(f.next_line()), b"last".to_vec());
    assert!(matches!(f.next_line(), LinePoll::EndOfStream));
    assert_eq!(f.buffered(), 0);
    assert!(matches!(f.next_line(), LinePoll::EndOfStream));
}

#[test]
fn flush_on_empty_buffer_reports_flushed() {
    let f = LineFramer::new();
    assert_eq!(f.flush_state(), FlushPoll::Flushed);
    assert_eq!(f.flush_state(), FlushPoll::Flushed);
    assert!(f.pending().is_empty());
}

#[test]
fn enqueue_does_not_flush() {
    let mut f = LineFramer::new();
    f.enqueue(b"abc");
    f.enqueue(b"de");
    assert_eq!(f.pending(), b"abcde");
    assert_eq!(f.flush_state(), FlushPoll::PartiallyFlushed);
}

#[test]
fn partial_writes_drain_the_buffer() {
    let mut f = LineFramer::new();
    f.enqueue(b"abcde");
    assert_eq!(f.written(2), Ok(FlushPoll::PartiallyFlushed));
    assert_eq!(f.pending(), b"cde");
    assert_eq!(f.written(3), Ok(FlushPoll::Flushed));
    assert!(f.pending().is_empty());
}

#[test]
fn zero_length_write_is_an_error() {
    let mut f = LineFramer::new();
    f.enqueue(b"abc");
    assert_eq!(f.written(0), Err(FramerError::ZeroLengthWrite));
    assert_eq!(f.pending(), b"abc");
}
