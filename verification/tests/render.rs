use rhai_repl::render::{
    banner_bytes, debug_hook_line, heap_line, print_hook_line, prompt_bytes, push_decimal_i64,
    push_decimal_u64, render_calc_response, render_statement_response, reprompt_bytes,
};
use rhai_repl::repl::{classify, Command};

fn dec_i64(n: i64) -> Vec<u8> {
    let mut out = Vec::new();
    push_decimal_i64(&mut out, n);
    out
}

#[test]
fn decimal_rendering_is_exact() {
    let mut out = Vec::new();
    push_decimal_u64(&mut out, 0);
    assert_eq!(out.as_slice(), b"0" as &[u8]);
    assert_eq!(dec_i64(42).as_slice(), b"42" as &[u8]);
    assert_eq!(dec_i64(-7).as_slice(), b"-7" as &[u8]);
    assert_eq!(dec_i64(i64::MAX).as_slice(), b"9223372036854775807" as &[u8]);
    assert_eq!(dec_i64(i64::MIN).as_slice(), b"-9223372036854775808" as &[u8]);
}

#[test]
fn prompts_are_the_fixed_literals() {
    assert_eq!(prompt_bytes().as_slice(), b">>> " as &[u8]);
    assert_eq!(reprompt_bytes().as_slice(), b"\n>>> " as &[u8]);
    assert!(banner_bytes().ends_with(b"rhai repl - v0.1.0\n>>> "));
}

#[test]
fn calc_responses_frame_result_and_error() {
    assert_eq!(render_calc_response(&Ok(42)).as_slice(), b"\n42\n" as &[u8]);
    assert_eq!(
        render_calc_response(&Err(b"boom".to_vec())).as_slice(),
        b"\nboom\n\n" as &[u8]
    );
}

#[test]
fn statement_responses_are_silent_on_success() {
    assert_eq!(render_statement_response(&Ok(())).as_slice(), b"" as &[u8]);
    assert_eq!(
        render_statement_response(&Err(b"bad".to_vec())).as_slice(),
        b"bad\n\n" as &[u8]
    );
}

#[test]
fn print_hook_lines_end_in_a_newline() {
    assert_eq!(print_hook_line(b"hello").as_slice(), b"hello\n" as &[u8]);
    assert_eq!(print_hook_line(b"").as_slice(), b"\n" as &[u8]);
}

#[test]
fn debug_hook_lines_follow_the_template() {
    assert_eq!(
        debug_hook_line(b"msg", Some(b"lib.rhai"), b"1:2").as_slice(),
        b"DEBUG of lib.rhai at 1:2: msg\n" as &[u8]
    );
    assert_eq!(
        debug_hook_line(b"msg", None, b"none").as_slice(),
        b"DEBUG of unknown at none: msg\n" as &[u8]
    );
}

#[test]
fn heap_line_formats_both_readings() {
    assert_eq!(heap_line(3, 5).as_slice(), b"used = 3, free = 5\n" as &[u8]);
    assert_eq!(
        heap_line(0, 65536).as_slice(),
        b"used = 0, free = 65536\n" as &[u8]
    );
}

#[test]
fn lines_classify_by_their_first_four_bytes() {
    assert_eq!(classify(b"calc 1+1"), Command::IntegerExpression);
    assert_eq!(classify(b"calculate"), Command::IntegerExpression);
    assert_eq!(classify(b"calc"), Command::IntegerExpression);
    assert_eq!(classify(b"cal"), Command::Statement);
    assert_eq!(classify(b"let x = 1;"), Command::Statement);
    assert_eq!(classify(b""), Command::Statement);
}
