//! The embedded scripting engine, reached through trusted wrappers.
//!
//! The engine is a black-box collaborator: nothing below states what a
//! script evaluates to, only how its results and its printed output are
//! carried back as plain bytes.  Every verified caller takes those bytes
//! as they come.

use vstd::prelude::*;

verus! {

#[verifier::external_type_specification]
#[verifier::external_body]
pub struct ExEngine(rhai::Engine);

#[verifier::external_type_specification]
#[verifier::external_body]
pub struct ExScope<'a>(rhai::Scope<'a>);

#[verifier::external_type_specification]
#[verifier::external_body]
#[verifier::reject_recursive_types(T)]
pub struct ExRefCell<T: ?Sized>(core::cell::RefCell<T>);

/// One interactive scripting session: the engine, the variable scope
/// that persists across dispatched commands, and the sink that the
/// engine's print and debug hooks append to.
pub struct ScriptSession {
    engine: rhai::Engine,
    scope: rhai::Scope<'static>,
    sink: std::rc::Rc<core::cell::RefCell<Vec<u8>>>,
}

impl ScriptSession {
    /// Relies on `rhai::Engine::new_raw`, `rhai::Scope::new` and the std
    /// `Rc`/`RefCell` constructors: a bare engine (no packages, no module
    /// resolver), an empty scope, and an empty shared sink.
    #[verifier::external_body]
    pub(crate) fn new() -> ScriptSession {
        ScriptSession {
            engine: rhai::Engine::new_raw(),
            scope: rhai::Scope::new(),
            sink: std::rc::Rc::new(core::cell::RefCell::new(Vec::new())),
        }
    }

    /// Relies on `rhai::packages::Package::register_into_engine` with
    /// rhai's `BasicStringPackage`: scripts gain `print`, `debug` and the
    /// basic string utilities, and nothing else — in particular no file
    /// module resolver and no clock.
    #[verifier::external_body]
    pub(crate) fn install_string_package(&mut self) {
        let pkg = rhai::packages::BasicStringPackage::new();
        rhai::packages::Package::register_into_engine(&pkg, &mut self.engine);
    }

    /// Relies on `rhai::Engine::on_print`: the engine calls the hook
    /// once per print line; the hook appends the verified rendering of
    /// that line to the sink.
    #[verifier::external_body]
    pub(crate) fn install_print_hook(&mut self) {
        let sink = self.sink.clone();
        self.engine.on_print(move |s| {
            sink.borrow_mut().extend_from_slice(&crate::render::print_hook_line(s.as_bytes()));
        });
    }

    /// Relies on `rhai::Engine::on_debug`: the engine hands the hook the
    /// message, an optional source label and a position; the hook appends
    /// the verified rendering of them to the sink, with the position as
    /// its std debug text.
    #[verifier::external_body]
    pub(crate) fn install_debug_hook(&mut self) {
        let sink = self.sink.clone();
        self.engine.on_debug(move |s, src, pos| {
            let pos_text = format!("{pos:?}");
            let line = crate::render::debug_hook_line(
                s.as_bytes(),
                src.map(|t| t.as_bytes()),
                pos_text.as_bytes(),
            );
            sink.borrow_mut().extend_from_slice(&line);
        });
    }

    /// Relies on `rhai::Engine::register_fn`: binds the script name
    /// `heap` to a callback whose only effect is to append the given
    /// report line to the sink.
    #[verifier::external_body]
    pub(crate) fn register_heap_print(&mut self, line: Vec<u8>) {
        let sink = self.sink.clone();
        self.engine.register_fn("heap", move || {
            sink.borrow_mut().extend_from_slice(&line);
        });
    }

    /// Relies on `rhai::Engine::register_fn`: binds the script name
    /// `heap_stats` to a callback returning the two given readings as a
    /// two-element script array.
    #[verifier::external_body]
    pub(crate) fn register_heap_stats(&mut self, used: usize, free: usize) {
        self.engine.register_fn("heap_stats", move || -> rhai::Array {
            vec![
                rhai::Dynamic::from_int(used as rhai::INT),
                rhai::Dynamic::from_int(free as rhai::INT),
            ]
        });
    }

    /// Relies on `rhai::Engine::eval_expression_with_scope::<i64>`: the
    /// text is parsed as a single expression and evaluated against the
    /// session scope; an error comes back as the engine's debug
    /// rendering of it.  Engine state survives an error.
    #[verifier::external_body]
    pub(crate) fn eval_int(&mut self, expr: &[u8]) -> Result<i64, Vec<u8>> {
        let text = String::from_utf8_lossy(expr);
        self.engine
            .eval_expression_with_scope::<i64>(&mut self.scope, &text)
            .map_err(|e| format!("{e:?}").into_bytes())
    }

    /// Relies on `rhai::Engine::run_with_scope`: the text runs as a
    /// script against the session scope, so bindings it makes persist;
    /// an error comes back as the engine's debug rendering of it.
    #[verifier::external_body]
    pub(crate) fn run_statement(&mut self, script: &[u8]) -> Result<(), Vec<u8>> {
        let text = String::from_utf8_lossy(script);
        self.engine
            .run_with_scope(&mut self.scope, &text)
            .map_err(|e| format!("{e:?}").into_bytes())
    }

    /// Relies on `core::mem::take` on the sink's contents: every byte
    /// the hooks have written since the last drain, in order.
    #[verifier::external_body]
    pub(crate) fn take_output(&mut self) -> Vec<u8> {
        core::mem::take(&mut *self.sink.borrow_mut())
    }
}

} // verus!
