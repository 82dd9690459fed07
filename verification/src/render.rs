//! Rendering of prompts, decimal integers and command responses as bytes.

use vstd::prelude::*;

use crate::NEWLINE;

verus! {

/// The decimal digits of `n`, most significant first, as ASCII bytes.
pub open spec fn dec_digits(n: nat) -> Seq<u8>
    decreases n,
{
    if n < 10 {
        seq![(48 + n) as u8]
    } else {
        dec_digits(n / 10).push((48 + n % 10) as u8)
    }
}

/// The decimal rendering of a signed integer: a leading `-` for a
/// negative value, then the digits of its magnitude.
pub open spec fn dec_i64(n: int) -> Seq<u8> {
    if n < 0 {
        seq![45u8] + dec_digits((-n) as nat)
    } else {
        dec_digits(n as nat)
    }
}

/// The prompt re-emitted after every completed command: `>>> `.
pub open spec fn prompt_spec() -> Seq<u8> {
    seq![62u8, 62u8, 62u8, 32u8]
}

/// The re-prompt for an empty line: a newline, then the prompt.
pub open spec fn reprompt_spec() -> Seq<u8> {
    seq![NEWLINE] + prompt_spec()
}

/// The response to an integer-expression command: the decimal result
/// framed by newlines on success, the error text followed by a blank
/// line on failure.
pub open spec fn calc_response_spec(r: Result<i64, Seq<u8>>) -> Seq<u8> {
    match r {
        Result::Ok(n) => seq![NEWLINE] + dec_i64(n as int) + seq![NEWLINE],
        Result::Err(e) => seq![NEWLINE] + e + seq![NEWLINE, NEWLINE],
    }
}

/// The response to a statement command: nothing on success (any output
/// arrives through the engine's print hook), the error text followed by
/// a blank line on failure.
pub open spec fn statement_response_spec(r: Result<(), Seq<u8>>) -> Seq<u8> {
    match r {
        Result::Ok(_) => Seq::<u8>::empty(),
        Result::Err(e) => e + seq![NEWLINE, NEWLINE],
    }
}

/// The error bytes of an evaluation result, seen as a sequence.
pub open spec fn result_bytes_view<T>(r: Result<T, Vec<u8>>) -> Result<T, Seq<u8>> {
    match r {
        Result::Ok(n) => Result::Ok(n),
        Result::Err(e) => Result::Err(e@),
    }
}

/// Append the decimal digits of `n` to `out`.
pub fn push_decimal_u64(out: &mut Vec<u8>, n: u64)
    ensures
        final(out)@ == old(out)@ + dec_digits(n as nat),
    decreases n,
{
    if n < 10 {
        out.push(48 + n as u8);
    } else {
        push_decimal_u64(out, n / 10);
        out.push(48 + (n % 10) as u8);
        proof {
            assert(out@ =~= old(out)@ + dec_digits(n as nat));
        }
    }
}

/// Append the decimal rendering of a signed integer to `out`.
pub fn push_decimal_i64(out: &mut Vec<u8>, n: i64)
    ensures
        final(out)@ == old(out)@ + dec_i64(n as int),
{
    if n >= 0 {
        push_decimal_u64(out, n as u64);
    } else {
        out.push(45u8);
        let m: u64 = (-(n as i128)) as u64;
        proof {
            assert(m as nat == (-(n as int)) as nat);
        }
        push_decimal_u64(out, m);
        proof {
            assert(out@ =~= old(out)@ + dec_i64(n as int));
        }
    }
}

/// The prompt as bytes.
pub fn prompt_bytes() -> (out: Vec<u8>)
    ensures
        out@ == prompt_spec(),
{
    let mut out: Vec<u8> = Vec::new();
    out.push(62u8);
    out.push(62u8);
    out.push(62u8);
    out.push(32u8);
    proof {
        assert(out@ =~= prompt_spec());
    }
    out
}

/// The re-prompt as bytes.
pub fn reprompt_bytes() -> (out: Vec<u8>)
    ensures
        out@ == reprompt_spec(),
{
    let mut out: Vec<u8> = Vec::new();
    out.push(NEWLINE);
    let mut p = prompt_bytes();
    out.append(&mut p);
    proof {
        assert(out@ =~= reprompt_spec());
    }
    out
}

/// The one-time boot banner, version string included, ending in the
/// prompt: `rhai repl - v0.1.0`.
pub open spec fn banner_spec() -> Seq<u8> {
    seq![
        NEWLINE,
        114u8, 104u8, 97u8, 105u8,  // "rhai"
        32u8, 114u8, 101u8, 112u8, 108u8,  // " repl"
        32u8, 45u8, 32u8, 118u8,  // " - v"
        48u8, 46u8, 49u8, 46u8, 48u8,  // "0.1.0"
        NEWLINE,
    ] + prompt_spec()
}

/// The boot banner as bytes.
pub fn banner_bytes() -> (out: Vec<u8>)
    ensures
        out@ == banner_spec(),
{
    let mut out: Vec<u8> = Vec::new();
    out.push(NEWLINE);
    out.push(114u8);
    out.push(104u8);
    out.push(97u8);
    out.push(105u8);
    out.push(32u8);
    out.push(114u8);
    out.push(101u8);
    out.push(112u8);
    out.push(108u8);
    out.push(32u8);
    out.push(45u8);
    out.push(32u8);
    out.push(118u8);
    out.push(48u8);
    out.push(46u8);
    out.push(49u8);
    out.push(46u8);
    out.push(48u8);
    out.push(NEWLINE);
    let mut p = prompt_bytes();
    out.append(&mut p);
    proof {
        assert(out@ =~= banner_spec());
    }
    out
}

/// One line of print-hook output: the engine's text, then a newline.
pub open spec fn print_hook_line_spec(msg: Seq<u8>) -> Seq<u8> {
    msg + seq![NEWLINE]
}

/// Build one line of print-hook output.
pub fn print_hook_line(msg: &[u8]) -> (out: Vec<u8>)
    ensures
        out@ == print_hook_line_spec(msg@),
{
    let mut out: Vec<u8> = vstd::slice::slice_to_vec(msg);
    out.push(NEWLINE);
    out
}

/// The bytes of an optional label.
pub open spec fn opt_bytes_view(src: Option<&[u8]>) -> Option<Seq<u8>> {
    match src {
        Option::Some(s) => Option::Some(s@),
        Option::None => Option::None,
    }
}

/// The source label of a debug line: the script source if one is known,
/// the word `unknown` otherwise.
pub open spec fn debug_label_spec(src: Option<Seq<u8>>) -> Seq<u8> {
    match src {
        Option::Some(s) => s,
        Option::None => seq![117u8, 110u8, 107u8, 110u8, 111u8, 119u8, 110u8],  // "unknown"
    }
}

/// One line of debug-hook output:
/// `DEBUG of <source> at <position>: <message>` and a newline.
pub open spec fn debug_hook_line_spec(msg: Seq<u8>, src: Option<Seq<u8>>, pos: Seq<u8>) -> Seq<
    u8,
> {
    seq![68u8, 69u8, 66u8, 85u8, 71u8, 32u8, 111u8, 102u8, 32u8]  // "DEBUG of "
        + debug_label_spec(src) + seq![32u8, 97u8, 116u8, 32u8]  // " at "
        + pos + seq![58u8, 32u8]  // ": "
        + msg + seq![NEWLINE]
}

/// Build one line of debug-hook output.
pub fn debug_hook_line(msg: &[u8], src: Option<&[u8]>, pos: &[u8]) -> (out: Vec<u8>)
    ensures
        out@ == debug_hook_line_spec(msg@, opt_bytes_view(src), pos@),
{
    let mut out: Vec<u8> = Vec::new();
    out.push(68u8);
    out.push(69u8);
    out.push(66u8);
    out.push(85u8);
    out.push(71u8);
    out.push(32u8);
    out.push(111u8);
    out.push(102u8);
    out.push(32u8);
    match src {
        Option::Some(s) => out.extend_from_slice(s),
        Option::None => {
            out.push(117u8);
            out.push(110u8);
            out.push(107u8);
            out.push(110u8);
            out.push(111u8);
            out.push(119u8);
            out.push(110u8);
        },
    }
    out.push(32u8);
    out.push(97u8);
    out.push(116u8);
    out.push(32u8);
    out.extend_from_slice(pos);
    out.push(58u8);
    out.push(32u8);
    out.extend_from_slice(msg);
    out.push(NEWLINE);
    proof {
        assert(out@ =~= debug_hook_line_spec(msg@, opt_bytes_view(src), pos@));
    }
    out
}

/// The allocator report emitted by the script-visible `heap()` binding:
/// `used = X, free = Y` and a newline.
pub open spec fn heap_line_spec(used: nat, free: nat) -> Seq<u8> {
    seq![117u8, 115u8, 101u8, 100u8, 32u8, 61u8, 32u8]  // "used = "
        + dec_digits(used) + seq![44u8, 32u8, 102u8, 114u8, 101u8, 101u8, 32u8, 61u8, 32u8]  // ", free = "
        + dec_digits(free) + seq![NEWLINE]
}

/// The allocator report as bytes.
pub fn heap_line(used: usize, free: usize) -> (out: Vec<u8>)
    ensures
        out@ == heap_line_spec(used as nat, free as nat),
{
    let mut out: Vec<u8> = Vec::new();
    out.push(117u8);
    out.push(115u8);
    out.push(101u8);
    out.push(100u8);
    out.push(32u8);
    out.push(61u8);
    out.push(32u8);
    push_decimal_u64(&mut out, used as u64);
    out.push(44u8);
    out.push(32u8);
    out.push(102u8);
    out.push(114u8);
    out.push(101u8);
    out.push(101u8);
    out.push(32u8);
    out.push(61u8);
    out.push(32u8);
    push_decimal_u64(&mut out, free as u64);
    out.push(NEWLINE);
    proof {
        assert(out@ =~= heap_line_spec(used as nat, free as nat));
    }
    out
}

/// Render the outcome of an integer-expression command.
pub fn render_calc_response(r: &Result<i64, Vec<u8>>) -> (out: Vec<u8>)
    ensures
        out@ == calc_response_spec(result_bytes_view(*r)),
{
    let mut out: Vec<u8> = Vec::new();
    out.push(NEWLINE);
    match r {
        Result::Ok(n) => {
            push_decimal_i64(&mut out, *n);
            out.push(NEWLINE);
        },
        Result::Err(e) => {
            out.extend_from_slice(e.as_slice());
            out.push(NEWLINE);
            out.push(NEWLINE);
        },
    }
    proof {
        assert(out@ =~= calc_response_spec(result_bytes_view(*r)));
    }
    out
}

/// Render the outcome of a statement command.
pub fn render_statement_response(r: &Result<(), Vec<u8>>) -> (out: Vec<u8>)
    ensures
        out@ == statement_response_spec(result_bytes_view(*r)),
{
    let mut out: Vec<u8> = Vec::new();
    match r {
        Result::Ok(_) => {},
        Result::Err(e) => {
            out.extend_from_slice(e.as_slice());
            out.push(NEWLINE);
            out.push(NEWLINE);
        },
    }
    proof {
        assert(out@ =~= statement_response_spec(result_bytes_view(*r)));
    }
    out
}

} // verus!
