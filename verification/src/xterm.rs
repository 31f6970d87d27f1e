//! The terminal widget as the adapter sees it.
//!
//! The widget renders text in the browser; the adapter consumes it opaquely
//! through a single operation, `write(text)`, which has no return value and no
//! failure mode the adapter can observe. The type here keeps exactly what that
//! operation determines: the texts handed to `write`, in call order.

use vstd::prelude::*;

verus! {

/// The terminal widget. Its view is the sequence of texts delivered to its
/// `write` operation so far, oldest first.
#[derive(Debug)]
pub struct Terminal {
    writes: Vec<String>,
}

impl View for Terminal {
    type V = Seq<Seq<char>>;

    closed spec fn view(&self) -> Seq<Seq<char>> {
        self.writes@.map_values(|s: String| s@)
    }
}

impl Terminal {
    /// A widget that has been written nothing yet.
    pub fn new() -> (t: Terminal)
        ensures
            t@ == Seq::<Seq<char>>::empty(),
    {
        Terminal { writes: Vec::new() }
    }

    /// The widget's one operation: accept a text and render it. It is assumed
    /// synchronous and infallible; all the adapter relies on is that each call
    /// appends one entry to the history of delivered texts.
    pub fn write(&mut self, text: String)
        ensures
            final(self)@ == old(self)@.push(text@),
    {
        self.writes.push(text);
    }

    /// How many texts have been delivered so far.
    pub fn write_count(&self) -> (n: usize)
        ensures
            n == self@.len(),
    {
        self.writes.len()
    }

    /// The `i`-th delivered text, oldest first.
    pub fn written(&self, i: usize) -> (s: &String)
        requires
            i < self@.len(),
        ensures
            s@ == self@[i as int],
    {
        &self.writes[i]
    }
}

} // verus!
