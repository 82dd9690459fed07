//! The command loop: byte handling, line completion, classification and
//! dispatch.

use vstd::prelude::*;

use crate::arena::HeapArena;
use crate::engine::ScriptSession;
use crate::line_buffer::LineBuffer;
use crate::render::{
    banner_bytes, banner_spec, calc_response_spec, heap_line, prompt_bytes, prompt_spec,
    render_calc_response, render_statement_response, reprompt_bytes, reprompt_spec,
    result_bytes_view, statement_response_spec,
};
use crate::{BootError, BACKSPACE, CR, LINE_CAPACITY, NEWLINE};

verus! {

/// The classification of a completed line.
#[derive(Debug, PartialEq, Eq, Structural)]
pub enum Command {
    /// The first four bytes are `calc`: the remainder is evaluated as an
    /// integer expression.
    IntegerExpression,
    /// Any other line runs as a statement, for its effects alone.
    Statement,
}

/// A line is an integer-expression command exactly when its first four
/// bytes are the literal `calc`.
pub open spec fn classify_spec(line: Seq<u8>) -> Command {
    if line.len() >= 4 && line[0] == 99u8 && line[1] == 97u8 && line[2] == 108u8 && line[3]
        == 99u8 {
        Command::IntegerExpression
    } else {
        Command::Statement
    }
}

/// Classify a completed line.
pub fn classify(line: &[u8]) -> (c: Command)
    ensures
        c == classify_spec(line@),
{
    if line.len() >= 4 && *vstd::slice::slice_index_get(line, 0) == 99u8
        && *vstd::slice::slice_index_get(line, 1) == 97u8
        && *vstd::slice::slice_index_get(line, 2) == 108u8
        && *vstd::slice::slice_index_get(line, 3) == 99u8 {
        Command::IntegerExpression
    } else {
        Command::Statement
    }
}

/// What an integer-expression dispatch writes after the echoed
/// terminator: the print-hook output of the evaluation, then the
/// rendered result.
pub open spec fn calc_exchange(hook: Seq<u8>, r: Result<i64, Seq<u8>>) -> Seq<u8> {
    hook + calc_response_spec(r)
}

/// What a statement dispatch writes after the echoed terminator: a
/// newline, the print-hook output of the run, then the rendered
/// outcome.
pub open spec fn statement_exchange(hook: Seq<u8>, r: Result<(), Seq<u8>>) -> Seq<u8> {
    seq![NEWLINE] + hook + statement_response_spec(r)
}

/// One byte's effect on the accumulated line: a backspace drops the
/// last buffered byte, a terminator leaves the buffer empty (an empty
/// line re-prompts, a completed line is dispatched and cleared), and
/// any other byte is appended while there is room.
pub open spec fn buffer_step(buf: Seq<u8>, c: u8) -> Seq<u8> {
    if c == BACKSPACE {
        if buf.len() == 0 {
            buf
        } else {
            buf.drop_last()
        }
    } else if c == CR {
        Seq::<u8>::empty()
    } else if buf.len() < LINE_CAPACITY {
        buf.push(c)
    } else {
        buf
    }
}

/// The accumulated line after receiving a whole run of bytes, one
/// [`buffer_step`] at a time.
pub open spec fn buffer_after(buf: Seq<u8>, bytes: Seq<u8>) -> Seq<u8>
    decreases bytes.len(),
{
    if bytes.len() == 0 {
        buf
    } else {
        buffer_after(buffer_step(buf, bytes[0]), bytes.drop_first())
    }
}

/// Receiving one more byte after a run steps the run's outcome once.
pub proof fn lemma_buffer_after_snoc(buf: Seq<u8>, bytes: Seq<u8>, c: u8)
    ensures
        buffer_after(buf, bytes.push(c)) == buffer_step(buffer_after(buf, bytes), c),
    decreases bytes.len(),
{
    let s = bytes.push(c);
    if bytes.len() == 0 {
        assert(s[0] == c);
        assert(s.drop_first() =~= Seq::<u8>::empty());
        assert(buffer_after(buf, s) == buffer_after(buffer_step(buf, c), s.drop_first()));
        assert(buffer_after(buffer_step(buf, c), Seq::<u8>::empty()) == buffer_step(buf, c));
        assert(buffer_after(buf, bytes) == buf);
    } else {
        assert(s[0] == bytes[0]);
        assert(s.drop_first() =~= bytes.drop_first().push(c));
        lemma_buffer_after_snoc(buffer_step(buf, bytes[0]), bytes.drop_first(), c);
        assert(buffer_after(buf, s) == buffer_after(buffer_step(buf, bytes[0]), s.drop_first()));
        assert(buffer_after(buf, bytes) == buffer_after(
            buffer_step(buf, bytes[0]),
            bytes.drop_first(),
        ));
    }
}

/// The shape of what one received byte writes back, against the buffer
/// as it stood when the byte arrived: the echo alone for an edit or an
/// ordinary byte, the echo and the re-prompt for a terminator on an
/// empty line, and the echo, the exchange with the engine and the
/// prompt for a dispatched line.
pub open spec fn byte_output_ok(buf: Seq<u8>, c: u8, o: Seq<u8>) -> bool {
    if c == BACKSPACE {
        o == seq![c]
    } else if c == CR {
        if buf.len() == 0 {
            o == seq![c] + reprompt_spec()
        } else {
            (classify_spec(buf) is IntegerExpression ==> exists|hook: Seq<u8>, r: Result<i64, Seq<u8>>|
                o == seq![c] + calc_exchange(hook, r) + prompt_spec())
            && (classify_spec(buf) is Statement ==> exists|hook: Seq<u8>, r: Result<(), Seq<u8>>|
                o == seq![c] + statement_exchange(hook, r) + prompt_spec())
        }
    } else {
        o == seq![c]
    }
}

/// The transport output of a whole run of bytes: one slice per received
/// byte, in order, each of the shape [`byte_output_ok`] demands for
/// that byte against the buffer as it then stood.
pub open spec fn outputs_ok(buf: Seq<u8>, bytes: Seq<u8>, out: Seq<u8>) -> bool
    decreases bytes.len(),
{
    if bytes.len() == 0 {
        out == Seq::<u8>::empty()
    } else {
        exists|k: int|
            #![trigger out.subrange(0, k)]
            {
                &&& 0 <= k <= out.len()
                &&& outputs_ok(buf, bytes.drop_last(), out.subrange(0, k))
                &&& byte_output_ok(
                    buffer_after(buf, bytes.drop_last()),
                    bytes.last(),
                    out.subrange(k, out.len() as int),
                )
            }
    }
}

/// For any run of ordinary bytes (no terminator, no backspace) that
/// fits in the remaining capacity, the editor accumulates exactly that
/// run, in order.
pub proof fn lemma_plain_run_accumulates(buf: Seq<u8>, bytes: Seq<u8>)
    requires
        forall|i: int| 0 <= i < bytes.len() ==> bytes[i] != BACKSPACE && bytes[i] != CR,
        buf.len() + bytes.len() <= LINE_CAPACITY,
    ensures
        buffer_after(buf, bytes) == buf + bytes,
    decreases bytes.len(),
{
    if bytes.len() == 0 {
        assert(buf + bytes =~= buf);
    } else {
        assert(buffer_step(buf, bytes[0]) == buf.push(bytes[0]));
        assert(forall|i: int|
            0 <= i < bytes.drop_first().len() ==> bytes.drop_first()[i] == bytes[i + 1]);
        lemma_plain_run_accumulates(buf.push(bytes[0]), bytes.drop_first());
        assert(buf.push(bytes[0]) + bytes.drop_first() =~= buf + bytes);
    }
}

/// The command loop's state: the line being accumulated, the scripting
/// session that survives across commands, and the heap arena model.
pub struct Repl {
    buffer: LineBuffer,
    session: ScriptSession,
    arena: HeapArena,
}

impl Repl {
    /// The bytes accumulated towards the next line.
    pub closed spec fn buffer_view(&self) -> Seq<u8> {
        self.buffer@
    }

    /// The arena model the session was booted with.
    pub closed spec fn arena_view(&self) -> HeapArena {
        self.arena
    }

    /// The buffer is within capacity and the arena bookkeeping is sound.
    pub open spec fn wf(&self) -> bool {
        self.buffer_view().len() <= LINE_CAPACITY && self.arena_view().wf()
    }

    /// Neither the scripting session nor the arena changed: in
    /// particular, the engine was not invoked.
    pub closed spec fn same_engine_state(&self, other: &Repl) -> bool {
        self.session == other.session && self.arena == other.arena
    }

    /// Boot the loop: create the arena, build the session, bind the
    /// output hooks and the heap-introspection functions, run the
    /// one-time startup script, and hand back the ready state together
    /// with the boot output, which ends in the banner and the first
    /// prompt.  A zero heap size or a failing startup script is fatal.
    pub fn new(heap_size: usize) -> (r: Result<(Repl, Vec<u8>), BootError>)
        ensures
            heap_size == 0 ==> r == Result::<(Repl, Vec<u8>), BootError>::Err(
                BootError::ZeroHeapSize,
            ),
            heap_size > 0 ==> (r matches Ok(_) || r matches Err(BootError::StartupScript(_))),
            r matches Ok(p) ==> {
                &&& p.0.wf()
                &&& p.0.buffer_view() == Seq::<u8>::empty()
                &&& p.0.arena_view().spec_total() == heap_size
                &&& p.0.arena_view().spec_used() == 0
                &&& exists|hook: Seq<u8>| p.1@ == hook + banner_spec()
            },
    {
        let arena = match HeapArena::try_init(heap_size) {
            Ok(a) => a,
            Err(e) => {
                return Err(e);
            },
        };
        let mut session = ScriptSession::new();
        session.install_string_package();
        session.install_print_hook();
        session.install_debug_hook();
        let (used, free) = arena.heap_stats();
        session.register_heap_print(heap_line(used, free));
        session.register_heap_stats(used, free);
        let script: &str = "\n            print(\"hello, world!\");\n            let x = 12;\n            let y = 44;\n            let result = x * y;\n            print(`${x} * ${y} = ${result}`);\n        ";
        match session.run_statement(script.as_bytes()) {
            Ok(_) => {},
            Err(e) => {
                return Err(BootError::StartupScript(e));
            },
        }
        let mut boot = session.take_output();
        let ghost hook = boot@;
        let mut ban = banner_bytes();
        boot.append(&mut ban);
        proof {
            assert(boot@ == hook + banner_spec());
        }
        Ok((Repl { buffer: LineBuffer::new(), session, arena }, boot))
    }

    /// How many bytes the line buffer currently holds.
    pub fn line_len(&self) -> (n: usize)
        ensures
            n == self.buffer_view().len(),
    {
        self.buffer.len()
    }

    /// The arena readings, as the script bindings report them:
    /// `used + free` never exceeds the configured size.
    pub fn heap_stats(&self) -> (r: (usize, usize))
        requires
            self.wf(),
        ensures
            r.0 == self.arena_view().spec_used(),
            r.1 == self.arena_view().spec_total() - self.arena_view().spec_used(),
            r.0 + r.1 <= self.arena_view().spec_total(),
    {
        self.arena.heap_stats()
    }

    /// Receive one byte from the transport.  The byte is echoed first,
    /// whatever its role.  A backspace drops the last buffered byte and
    /// never fails; a carriage return on an empty buffer re-emits the
    /// prompt without invoking the engine; a carriage return on a
    /// non-empty buffer dispatches the line and clears the buffer; any
    /// other byte is appended, or rejected unchanged once the buffer is
    /// at capacity.
    pub fn handle_byte(&mut self, c: u8) -> (out: Vec<u8>)
        requires
            old(self).wf(),
        ensures
            final(self).wf(),
            out@.len() >= 1 && out@[0] == c,
            c == BACKSPACE ==> {
                &&& out@ == seq![c]
                &&& final(self).buffer_view() == if old(self).buffer_view().len() == 0 {
                    old(self).buffer_view()
                } else {
                    old(self).buffer_view().drop_last()
                }
                &&& final(self).same_engine_state(old(self))
            },
            c == CR && old(self).buffer_view().len() == 0 ==> {
                &&& out@ == seq![c] + reprompt_spec()
                &&& final(self).buffer_view() == old(self).buffer_view()
                &&& final(self).same_engine_state(old(self))
            },
            c == CR && old(self).buffer_view().len() > 0 ==> {
                &&& final(self).buffer_view() == Seq::<u8>::empty()
                &&& final(self).arena_view() == old(self).arena_view()
                &&& (classify_spec(old(self).buffer_view()) is IntegerExpression
                    ==> exists|hook: Seq<u8>, r: Result<i64, Seq<u8>>|
                        out@ == seq![c] + calc_exchange(hook, r) + prompt_spec())
                &&& (classify_spec(old(self).buffer_view()) is Statement
                    ==> exists|hook: Seq<u8>, r: Result<(), Seq<u8>>|
                        out@ == seq![c] + statement_exchange(hook, r) + prompt_spec())
            },
            c != BACKSPACE && c != CR ==> {
                &&& out@ == seq![c]
                &&& final(self).same_engine_state(old(self))
                &&& (old(self).buffer_view().len() < LINE_CAPACITY ==> final(self).buffer_view()
                    == old(self).buffer_view().push(c))
                &&& (old(self).buffer_view().len() >= LINE_CAPACITY ==> final(self).buffer_view()
                    == old(self).buffer_view())
            },
    {
        let mut out: Vec<u8> = Vec::new();
        out.push(c);
        if c == BACKSPACE {
            self.buffer.pop_byte();
        } else if c == CR {
            if self.buffer.len() == 0 {
                let mut rp = reprompt_bytes();
                out.append(&mut rp);
                proof {
                    assert(out@ =~= seq![c] + reprompt_spec());
                }
            } else {
                let line: Vec<u8> = vstd::slice::slice_to_vec(self.buffer.bytes());
                self.buffer.clear();
                match classify(line.as_slice()) {
                    Command::IntegerExpression => {
                        let expr = vstd::slice::slice_subrange(line.as_slice(), 4, line.len());
                        let r = self.session.eval_int(expr);
                        let mut hook = self.session.take_output();
                        let ghost hook_view = hook@;
                        out.append(&mut hook);
                        let mut resp = render_calc_response(&r);
                        out.append(&mut resp);
                        let mut p = prompt_bytes();
                        out.append(&mut p);
                        proof {
                            let rv = result_bytes_view(r);
                            assert(out@ =~= seq![c] + calc_exchange(hook_view, rv)
                                + prompt_spec());
                        }
                    },
                    Command::Statement => {
                        out.push(NEWLINE);
                        let r = self.session.run_statement(line.as_slice());
                        let mut hook = self.session.take_output();
                        let ghost hook_view = hook@;
                        out.append(&mut hook);
                        let mut resp = render_statement_response(&r);
                        out.append(&mut resp);
                        let mut p = prompt_bytes();
                        out.append(&mut p);
                        proof {
                            let rv = result_bytes_view(r);
                            assert(out@ =~= seq![c] + statement_exchange(hook_view, rv)
                                + prompt_spec());
                        }
                    },
                }
            }
        } else {
            let _ = self.buffer.push_byte(c);
        }
        out
    }

    /// Feed a run of bytes, echoing and handling each in order, and
    /// collect everything written back.  For a run of ordinary bytes
    /// (no terminator, no backspace) that fits in the remaining
    /// capacity, the buffer afterwards holds exactly the old contents
    /// followed by the run, the output is the echo of the run, and the
    /// engine is never invoked.
    pub fn feed(&mut self, bytes: &[u8]) -> (out: Vec<u8>)
        requires
            old(self).wf(),
        ensures
            final(self).wf(),
            final(self).buffer_view() == buffer_after(old(self).buffer_view(), bytes@),
            outputs_ok(old(self).buffer_view(), bytes@, out@),
            ((forall|i: int|
                0 <= i < bytes@.len() ==> bytes@[i] != BACKSPACE && bytes@[i] != CR)
                && old(self).buffer_view().len() + bytes@.len() <= LINE_CAPACITY) ==> {
                &&& final(self).buffer_view() == old(self).buffer_view() + bytes@
                &&& out@ == bytes@
                &&& final(self).same_engine_state(old(self))
            },
    {
        let ghost pre = *old(self);
        let ghost plain = (forall|i: int|
            0 <= i < bytes@.len() ==> bytes@[i] != BACKSPACE && bytes@[i] != CR)
            && pre.buffer_view().len() + bytes@.len() <= LINE_CAPACITY;
        let mut out: Vec<u8> = Vec::new();
        let mut i: usize = 0;
        while i < bytes.len()
            invariant
                self.wf(),
                i <= bytes@.len(),
                self.buffer_view() == buffer_after(pre.buffer_view(), bytes@.subrange(0, i as int)),
                outputs_ok(pre.buffer_view(), bytes@.subrange(0, i as int), out@),
                plain == ((forall|k: int|
                    0 <= k < bytes@.len() ==> bytes@[k] != BACKSPACE && bytes@[k] != CR)
                    && pre.buffer_view().len() + bytes@.len() <= LINE_CAPACITY),
                plain ==> {
                    &&& self.buffer_view() == pre.buffer_view() + bytes@.subrange(0, i as int)
                    &&& out@ == bytes@.subrange(0, i as int)
                    &&& self.same_engine_state(&pre)
                },
            decreases bytes@.len() - i,
        {
            let c = *vstd::slice::slice_index_get(bytes, i);
            let ghost before = *self;
            let ghost out_before = out@;
            let mut o = self.handle_byte(c);
            let ghost o_view = o@;
            out.append(&mut o);
            proof {
                assert(self.buffer_view() == buffer_step(before.buffer_view(), c)) by {
                    if c == CR && before.buffer_view().len() == 0 {
                        assert(before.buffer_view() =~= Seq::<u8>::empty());
                    }
                };
                assert(bytes@.subrange(0, i + 1 as int) =~= bytes@.subrange(0, i as int).push(
                    bytes@[i as int],
                ));
                lemma_buffer_after_snoc(pre.buffer_view(), bytes@.subrange(0, i as int), c);
                assert(byte_output_ok(before.buffer_view(), c, o_view)) by {
                    if c == CR && before.buffer_view().len() == 0 {
                        assert(before.buffer_view() =~= Seq::<u8>::empty());
                    }
                };
                let s1 = bytes@.subrange(0, i + 1 as int);
                let k = out_before.len() as int;
                assert(outputs_ok(pre.buffer_view(), s1, out@)) by {
                    assert(s1.len() == i + 1);
                    assert(s1.drop_last() =~= bytes@.subrange(0, i as int));
                    assert(s1.last() == bytes@[i as int]);
                    assert(out@ == out_before + o_view);
                    assert(out@.subrange(0, k) =~= out_before);
                    assert(out@.subrange(k, out@.len() as int) =~= o_view);
                    assert(outputs_ok(pre.buffer_view(), s1.drop_last(), out@.subrange(0, k)));
                    assert(byte_output_ok(
                        buffer_after(pre.buffer_view(), s1.drop_last()),
                        s1.last(),
                        out@.subrange(k, out@.len() as int),
                    ));
                };
                if plain {
                    assert(bytes@.subrange(0, i + 1 as int) =~= bytes@.subrange(0, i as int)
                        + seq![bytes@[i as int]]);
                    assert(self.buffer_view() =~= pre.buffer_view() + bytes@.subrange(
                        0,
                        i + 1 as int,
                    ));
                    assert(out@ =~= bytes@.subrange(0, i + 1 as int));
                }
            }
            i = i + 1;
        }
        proof {
            assert(bytes@.subrange(0, bytes@.len() as int) =~= bytes@);
        }
        out
    }
}

} // verus!
