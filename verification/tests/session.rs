use rhai_repl::repl::Repl;
use rhai_repl::{BootError, BACKSPACE};

fn boot() -> Repl {
    let (repl, _boot_out) = Repl::new(64 * 1024).expect("boot");
    repl
}

#[test]
fn boot_output_ends_with_banner_and_prompt() {
    let (_repl, boot_out) = Repl::new(64 * 1024).expect("boot");
    let text = String::from_utf8_lossy(&boot_out).into_owned();
    assert!(text.contains("hello, world!"));
    assert!(text.contains("528"));
    assert!(text.ends_with("rhai repl - v0.1.0\n>>> "));
}

#[test]
fn zero_heap_size_is_fatal() {
    match Repl::new(0) {
        Err(e) => assert_eq!(e, BootError::ZeroHeapSize),
        Ok(_) => panic!("zero-sized arena must not boot"),
    }
}

#[test]
fn calc_evaluates_integer_expression() {
    let mut repl = boot();
    let out = repl.feed(b"calc 6*7\r");
    let text = String::from_utf8_lossy(&out).into_owned();
    assert!(text.contains("42"));
    assert_eq!(out.as_slice(), b"calc 6*7\r\n42\n>>> " as &[u8]);
}

#[test]
fn bindings_persist_across_commands() {
    let mut repl = boot();
    let first = repl.feed(b"let a = 5;\r");
    assert!(first.ends_with(b">>> "));
    let second = repl.feed(b"calc a+1\r");
    let text = String::from_utf8_lossy(&second).into_owned();
    assert!(text.contains("6"));
    assert_eq!(second.as_slice(), b"calc a+1\r\n6\n>>> " as &[u8]);
}

#[test]
fn statement_output_goes_through_print_hook() {
    let mut repl = boot();
    let out = repl.feed(b"print(\"hi there\");\r");
    assert_eq!(
        out.as_slice(),
        b"print(\"hi there\");\r\nhi there\n>>> " as &[u8]
    );
}

#[test]
fn debug_statement_goes_through_debug_hook() {
    let mut repl = boot();
    let out = repl.feed(b"debug(\"marker\");\r");
    let text = String::from_utf8_lossy(&out).into_owned();
    assert!(text.contains("DEBUG"));
    assert!(text.contains("marker"));
}

#[test]
fn calc_failure_reports_error_and_loop_continues() {
    let mut repl = boot();
    let out = repl.feed(b"calc no_such_variable\r");
    let text = String::from_utf8_lossy(&out).into_owned();
    assert!(text.ends_with("\n\n>>> "));
    assert!(text.len() > "calc no_such_variable\r\n\n\n>>> ".len());
    let again = repl.feed(b"calc 2+2\r");
    assert_eq!(again.as_slice(), b"calc 2+2\r\n4\n>>> " as &[u8]);
}

#[test]
fn statement_failure_reports_error_and_loop_continues() {
    let mut repl = boot();
    let out = repl.feed(b"let = ;\r");
    let text = String::from_utf8_lossy(&out).into_owned();
    assert!(text.ends_with("\n\n>>> "));
    let again = repl.feed(b"let ok = 1;\r");
    assert!(again.ends_with(b">>> "));
    let third = repl.feed(b"calc ok\r");
    assert_eq!(third.as_slice(), b"calc ok\r\n1\n>>> " as &[u8]);
}

#[test]
fn backspace_edits_before_dispatch() {
    let mut repl = boot();
    repl.feed(b"calx");
    repl.handle_byte(BACKSPACE);
    let out = repl.feed(b"c 2+2\r");
    assert_eq!(out.as_slice(), b"c 2+2\r\n4\n>>> " as &[u8]);
}

#[test]
fn heap_binding_prints_arena_readings() {
    let mut repl = boot();
    let out = repl.feed(b"heap();\r");
    let text = String::from_utf8_lossy(&out).into_owned();
    assert!(text.contains("used = 0, free = 65536"));
}

#[test]
fn heap_stats_binding_is_bounded_by_arena_size() {
    let mut repl = boot();
    let out = repl.feed(b"calc heap_stats()[0] + heap_stats()[1]\r");
    let text = String::from_utf8_lossy(&out).into_owned();
    let value: u64 = text
        .trim_start_matches("calc heap_stats()[0] + heap_stats()[1]\r\n")
        .trim_end_matches("\n>>> ")
        .parse()
        .expect("a decimal sum");
    assert!(value <= 64 * 1024);
}

#[test]
fn sessions_do_not_share_bindings() {
    let mut first = boot();
    let mut second = boot();
    first.feed(b"let only_here = 9;\r");
    let ok = first.feed(b"calc only_here\r");
    assert_eq!(ok.as_slice(), b"calc only_here\r\n9\n>>> " as &[u8]);
    let err = second.feed(b"calc only_here\r");
    assert!(err.ends_with(b"\n\n>>> "));
}

#[test]
fn scripts_can_branch_on_remaining_capacity() {
    let mut repl = boot();
    let out = repl.feed(b"calc if heap_stats()[1] > 0 { 1 } else { 0 }\r");
    assert!(out.ends_with(b"\n1\n>>> "));
}
