//! An interactive command loop around an embedded scripting engine.
//!
//! Bytes arrive one at a time from a transport, are echoed, and accumulate
//! in a bounded line buffer.  A carriage return completes the line: a line
//! whose first four bytes are `calc` is evaluated as an integer expression,
//! any other line runs as a statement, and the result or error text is
//! rendered back as bytes.  A fixed heap arena model supplies the
//! allocator bookkeeping that scripts can inspect.

use vstd::prelude::*;

pub mod arena;
pub mod engine;
pub mod line_buffer;
pub mod render;
pub mod repl;

verus! {

/// Fixed capacity of the line buffer, in bytes.
pub const LINE_CAPACITY: usize = 1024;

/// Edit control: deletes the most recently buffered byte.
pub const BACKSPACE: u8 = 8;

/// Line terminator: completes the current line.
pub const CR: u8 = 13;

/// Line feed, used when rendering responses.
pub const NEWLINE: u8 = 10;

/// A failure during the boot sequence.  Both variants are fatal: the
/// process cannot enter the command loop after one.
#[derive(Debug, PartialEq, Eq)]
pub enum BootError {
    /// The heap arena was asked for with size zero.
    ZeroHeapSize,
    /// The one-time startup script failed; the engine's error text is kept.
    StartupScript(Vec<u8>),
}

} // verus!
