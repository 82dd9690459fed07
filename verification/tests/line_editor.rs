use rhai_repl::line_buffer::LineBuffer;
use rhai_repl::repl::Repl;
use rhai_repl::{BACKSPACE, CR, LINE_CAPACITY};

fn boot() -> Repl {
    let (repl, _boot_out) = Repl::new(64 * 1024).expect("boot");
    repl
}

#[test]
fn ordinary_bytes_accumulate_in_order() {
    let mut repl = boot();
    let out = repl.feed(b"abc");
    assert_eq!(out.as_slice(), b"abc" as &[u8]);
    assert_eq!(repl.line_len(), 3);
}

#[test]
fn buffer_holds_fed_sequence() {
    let mut b = LineBuffer::new();
    for &c in b"let x = 1;" {
        assert!(b.push_byte(c));
    }
    assert_eq!(b.bytes(), b"let x = 1;" as &[u8]);
    assert_eq!(b.len(), 10);
}

#[test]
fn backspace_on_empty_buffer_is_a_noop() {
    let mut b = LineBuffer::new();
    b.pop_byte();
    assert_eq!(b.len(), 0);
    let mut repl = boot();
    let out = repl.handle_byte(BACKSPACE);
    assert_eq!(out.as_slice(), &[BACKSPACE] as &[u8]);
    assert_eq!(repl.line_len(), 0);
}

#[test]
fn backspace_deletes_last_byte() {
    let mut b = LineBuffer::new();
    assert!(b.push_byte(b'a'));
    assert!(b.push_byte(b'b'));
    b.pop_byte();
    assert_eq!(b.bytes(), b"a" as &[u8]);
}

#[test]
fn bare_return_reprompts_without_dispatch() {
    let mut repl = boot();
    let out = repl.handle_byte(CR);
    assert_eq!(out.as_slice(), b"\r\n>>> " as &[u8]);
    assert_eq!(repl.line_len(), 0);
}

#[test]
fn buffer_is_empty_after_dispatch() {
    let mut repl = boot();
    let out = repl.feed(b"calc 1+1\r");
    assert_eq!(repl.line_len(), 0);
    assert!(out.ends_with(b">>> "));
    let out = repl.feed(b"let q = 3;\r");
    assert_eq!(repl.line_len(), 0);
    assert!(out.ends_with(b">>> "));
}

#[test]
fn append_past_capacity_rejects_byte_and_keeps_state() {
    let mut b = LineBuffer::new();
    for _ in 0..LINE_CAPACITY {
        assert!(b.push_byte(b'x'));
    }
    assert!(!b.push_byte(b'y'));
    assert_eq!(b.len(), LINE_CAPACITY);
    assert_eq!(b.bytes()[LINE_CAPACITY - 1], b'x');
}

#[test]
fn bytes_after_a_terminator_start_the_next_line() {
    let mut repl = boot();
    repl.feed(b"calc 1\rxy");
    assert_eq!(repl.line_len(), 2);
    let out = repl.feed(b"\r");
    assert!(out.ends_with(b">>> "));
    assert_eq!(repl.line_len(), 0);
}

#[test]
fn repl_keeps_working_past_capacity() {
    let mut repl = boot();
    let long = vec![b'z'; LINE_CAPACITY + 10];
    repl.feed(&long);
    assert_eq!(repl.line_len(), LINE_CAPACITY);
    let out = repl.handle_byte(CR);
    assert_eq!(repl.line_len(), 0);
    assert!(out.ends_with(b">>> "));
}
