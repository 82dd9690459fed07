//! The bounded line buffer that accumulates one line of input.

use vstd::prelude::*;

use crate::LINE_CAPACITY;

verus! {

/// An ordered, bounded sequence of bytes with fixed capacity
/// [`LINE_CAPACITY`].  One line of input accumulates here until a
/// carriage return completes it.
pub struct LineBuffer {
    data: Vec<u8>,
}

impl View for LineBuffer {
    type V = Seq<u8>;

    closed spec fn view(&self) -> Seq<u8> {
        self.data@
    }
}

impl LineBuffer {
    /// The buffer never holds more than its capacity.
    pub open spec fn wf(&self) -> bool {
        self@.len() <= LINE_CAPACITY
    }

    /// A fresh, empty buffer.
    pub fn new() -> (b: LineBuffer)
        ensures
            b@ == Seq::<u8>::empty(),
            b.wf(),
    {
        LineBuffer { data: Vec::new() }
    }

    /// How many bytes are currently buffered.
    pub fn len(&self) -> (n: usize)
        ensures
            n == self@.len(),
    {
        self.data.len()
    }

    /// Append one byte.  Past capacity the byte is rejected and the
    /// buffer is left exactly as it was: appending never corrupts state.
    pub fn push_byte(&mut self, c: u8) -> (ok: bool)
        ensures
            old(self)@.len() < LINE_CAPACITY ==> final(self)@ == old(self)@.push(c) && ok,
            old(self)@.len() >= LINE_CAPACITY ==> final(self)@ == old(self)@ && !ok,
            old(self).wf() ==> final(self).wf(),
    {
        if self.data.len() < LINE_CAPACITY {
            self.data.push(c);
            true
        } else {
            false
        }
    }

    /// Remove the most recently appended byte.  On an empty buffer this
    /// is a no-op: it never fails or underflows.
    pub fn pop_byte(&mut self)
        ensures
            old(self)@.len() == 0 ==> final(self)@ == old(self)@,
            old(self)@.len() > 0 ==> final(self)@ == old(self)@.drop_last(),
            old(self).wf() ==> final(self).wf(),
    {
        if self.data.len() > 0 {
            let _ = self.data.pop();
        }
    }

    /// Discard every buffered byte.
    pub fn clear(&mut self)
        ensures
            final(self)@ == Seq::<u8>::empty(),
            final(self).wf(),
    {
        self.data.clear();
    }

    /// The buffered bytes, oldest first.
    pub fn bytes(&self) -> (s: &[u8])
        ensures
            s@ == self@,
    {
        self.data.as_slice()
    }
}

} // verus!
