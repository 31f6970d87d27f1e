//! The buffering backend adapter.
//!
//! `XtermJsCrosstermBackend` accepts raw output bytes through a buffered-writer
//! interface and delivers them to the terminal widget in batches: one widget
//! `write` call per flush, carrying the whole buffer decoded as text. Flushing
//! happens explicitly, before any read-through access to the widget, and once
//! more when the adapter is taken apart, so no buffered byte is silently
//! dropped and no access to the widget can overtake an earlier write.

use vstd::prelude::*;

use crate::xterm::Terminal;

verus! {

/// What a flush can report: the buffered bytes were not valid text under the
/// required encoding. The bytes are discarded either way; they are not kept
/// for a retry.
#[derive(Clone, Copy, Debug, PartialEq, Eq, Structural)]
pub enum FlushError {
    MalformedOutputEncoding,
}

/// The decoding of a byte sequence as text: `Some` of the character sequence
/// exactly when the bytes are valid in the required encoding, `None`
/// otherwise. The decoding itself is `String::from_utf8`'s; it depends on the
/// bytes alone, so it is left uninterpreted here.
pub uninterp spec fn utf8_text(bytes: Seq<u8>) -> Option<Seq<char>>;

/// Relies on `String::from_utf8`: it returns the bytes decoded as text when
/// they are valid UTF-8 and an error otherwise, and the outcome is a function
/// of the bytes alone.
#[verifier::external_body]
fn decode_utf8(bytes: Vec<u8>) -> (r: Option<String>)
    ensures
        match r {
            Some(s) => utf8_text(bytes@) == Some(s@),
            None => utf8_text(bytes@) is None,
        },
{
    match String::from_utf8(bytes) {
        Ok(s) => Some(s),
        Err(_) => None,
    }
}

/// The adapter as the contracts see it: the texts delivered to the widget so
/// far, and the bytes accepted but not yet delivered.
#[verifier::ext_equal]
pub struct AdapterModel {
    pub delivered: Seq<Seq<char>>,
    pub pending: Seq<u8>,
}

/// The adapter after accepting `bytes`: they join the pending buffer; nothing
/// reaches the widget.
pub open spec fn write_model(m: AdapterModel, bytes: Seq<u8>) -> AdapterModel {
    AdapterModel { delivered: m.delivered, pending: m.pending + bytes }
}

/// Whether a flush of `m` succeeds: an empty buffer always flushes; a
/// non-empty one exactly when its bytes decode as text.
pub open spec fn flush_ok(m: AdapterModel) -> bool {
    m.pending.len() == 0 || utf8_text(m.pending) is Some
}

/// The adapter after a flush. The buffer is drained in every case. A non-empty
/// buffer whose bytes decode is delivered as exactly one widget write; one
/// whose bytes do not decode is lost; an empty buffer delivers nothing.
pub open spec fn flush_model(m: AdapterModel) -> AdapterModel {
    if m.pending.len() == 0 {
        m
    } else if utf8_text(m.pending) is Some {
        AdapterModel { delivered: m.delivered.push(utf8_text(m.pending)->Some_0), pending: Seq::empty() }
    } else {
        AdapterModel { delivered: m.delivered, pending: Seq::empty() }
    }
}

/// Wrapper for the terminal widget that buffers everything written to it,
/// so that a batch of output reaches the widget as one big `write` call
/// rather than many small ones.
#[derive(Debug)]
pub struct XtermJsCrosstermBackend {
    /// The terminal widget this adapter drives. Reaching it through this field
    /// bypasses the buffer; `flush_and_borrow` is the ordering-preserving way.
    pub terminal: Terminal,
    /// Bytes accepted but not yet delivered to the widget.
    buffer: Vec<u8>,
}

impl View for XtermJsCrosstermBackend {
    type V = AdapterModel;

    closed spec fn view(&self) -> AdapterModel {
        AdapterModel { delivered: self.terminal@, pending: self.buffer@ }
    }
}

impl XtermJsCrosstermBackend {
    /// Wraps a widget; the buffer starts empty.
    pub fn new(terminal: Terminal) -> (b: Self)
        ensures
            b@.delivered == terminal@,
            b@.pending == Seq::<u8>::empty(),
    {
        XtermJsCrosstermBackend { terminal, buffer: Vec::new() }
    }

    /// Accepts bytes into the buffer. Nothing reaches the widget, and nothing
    /// can fail: the count returned is always the whole input's length.
    pub fn write(&mut self, buf: &[u8]) -> (n: usize)
        ensures
            n == buf@.len(),
            final(self)@ == write_model(old(self)@, buf@),
    {
        let mut i: usize = 0;
        while i < buf.len()
            invariant
                i <= buf.len(),
                self.terminal == old(self).terminal,
                self.buffer@ == old(self).buffer@ + buf@.subrange(0, i as int),
            decreases buf.len() - i,
        {
            self.buffer.push(buf[i]);
            i = i + 1;
        }
        buf.len()
    }

    /// Drains the buffer, and delivers what it held, decoded as text, to the
    /// widget in exactly one `write` call. An empty buffer delivers nothing
    /// and cannot fail. Bytes that are not valid text make the flush report
    /// `MalformedOutputEncoding`; they are lost, not kept for a retry, so the
    /// buffer is empty afterwards in every case.
    pub fn flush(&mut self) -> (r: Result<(), FlushError>)
        ensures
            final(self)@ == flush_model(old(self)@),
            r is Ok <==> flush_ok(old(self)@),
            r is Err ==> r == Err::<(), FlushError>(FlushError::MalformedOutputEncoding),
    {
        if self.buffer.len() == 0 {
            return Ok(());
        }
        let mut taken: Vec<u8> = Vec::new();
        core::mem::swap(&mut taken, &mut self.buffer);
        match decode_utf8(taken) {
            Some(text) => {
                self.terminal.write(text);
                Ok(())
            },
            None => Err(FlushError::MalformedOutputEncoding),
        }
    }

    /// Read-through access to the widget: flushes first, so that by the time
    /// the returned reference is used, everything buffered before the call has
    /// been delivered. A buffer of bytes that are not valid text makes the
    /// access fail instead of handing out a reference that could overtake
    /// them.
    pub fn flush_and_borrow(&mut self) -> (r: Result<&Terminal, FlushError>)
        ensures
            final(self)@ == flush_model(old(self)@),
            flush_ok(old(self)@) ==> (r matches Ok(t) && t@ == flush_model(old(self)@).delivered),
            !flush_ok(old(self)@) ==> r == Err::<&Terminal, FlushError>(
                FlushError::MalformedOutputEncoding,
            ),
    {
        match self.flush() {
            Ok(()) => Ok(&self.terminal),
            Err(e) => Err(e),
        }
    }

    /// Takes the adapter apart: one final flush, then the widget is handed
    /// back. The flush comes first, so the remaining buffered bytes are
    /// delivered before the adapter's ownership of the widget ends, and none
    /// are silently dropped. There is no implicit destructor to fall back on:
    /// a teardown has no caller to hand an error to, so ending the adapter
    /// this way is what reports a failing final flush.
    pub fn into_terminal(self) -> (r: (Terminal, Result<(), FlushError>))
        ensures
            r.0@ == flush_model(self@).delivered,
            r.1 is Ok <==> flush_ok(self@),
            r.1 is Err ==> r.1 == Err::<(), FlushError>(FlushError::MalformedOutputEncoding),
    {
        let mut this = self;
        let outcome = this.flush();
        let XtermJsCrosstermBackend { terminal, .. } = this;
        (terminal, outcome)
    }
}

/// The concatenation of a sequence of byte sequences, in order.
pub open spec fn concat_bytes(ws: Seq<Seq<u8>>) -> Seq<u8>
    decreases ws.len(),
{
    if ws.len() == 0 {
        Seq::empty()
    } else {
        ws[0] + concat_bytes(ws.drop_first())
    }
}

/// The adapter after accepting each byte sequence of `ws` in order, with no
/// flush in between.
pub open spec fn write_all_model(m: AdapterModel, ws: Seq<Seq<u8>>) -> AdapterModel
    decreases ws.len(),
{
    if ws.len() == 0 {
        m
    } else {
        write_all_model(write_model(m, ws[0]), ws.drop_first())
    }
}

/// Law: writes batch. Any number of writes with no flush in between delivers
/// nothing to the widget; they only append, in order, to the pending buffer,
/// so a later flush sees exactly the concatenation of all of them.
pub proof fn lemma_writes_batch(m: AdapterModel, ws: Seq<Seq<u8>>)
    ensures
        write_all_model(m, ws).delivered == m.delivered,
        write_all_model(m, ws).pending == m.pending + concat_bytes(ws),
    decreases ws.len(),
{
    if ws.len() == 0 {
        assert(m.pending + concat_bytes(ws) =~= m.pending);
    } else {
        lemma_writes_batch(write_model(m, ws[0]), ws.drop_first());
        assert((m.pending + ws[0]) + concat_bytes(ws.drop_first()) =~= m.pending + (ws[0]
            + concat_bytes(ws.drop_first())));
    }
}

/// Law: writing non-empty bytes that decode as text and then flushing, with
/// nothing pending beforehand, delivers exactly one widget write, whose text
/// is the decoding of those bytes, and leaves the buffer empty.
pub proof fn lemma_write_then_flush(m: AdapterModel, b: Seq<u8>)
    requires
        m.pending.len() == 0,
        b.len() > 0,
        utf8_text(b) is Some,
    ensures
        flush_ok(write_model(m, b)),
        flush_model(write_model(m, b)).delivered == m.delivered.push(utf8_text(b)->Some_0),
        flush_model(write_model(m, b)).pending.len() == 0,
{
    assert(m.pending + b =~= b);
}

/// Law: a sequence of writes from an empty buffer followed by one flush
/// delivers exactly one widget call, carrying the concatenation of all the
/// writes decoded as text, whenever that concatenation is non-empty and
/// decodes; the writes are never delivered individually.
pub proof fn lemma_batched_flush(m: AdapterModel, ws: Seq<Seq<u8>>)
    requires
        m.pending.len() == 0,
        concat_bytes(ws).len() > 0,
        utf8_text(concat_bytes(ws)) is Some,
    ensures
        flush_ok(write_all_model(m, ws)),
        flush_model(write_all_model(m, ws)).delivered == m.delivered.push(
            utf8_text(concat_bytes(ws))->Some_0,
        ),
        flush_model(write_all_model(m, ws)).pending.len() == 0,
{
    lemma_writes_batch(m, ws);
    assert(m.pending + concat_bytes(ws) =~= concat_bytes(ws));
}

/// Law: a flush of an empty buffer succeeds and has no observable effect: it
/// delivers nothing and leaves the adapter as it was.
pub proof fn lemma_flush_empty(m: AdapterModel)
    requires
        m.pending.len() == 0,
    ensures
        flush_ok(m),
        flush_model(m) == m,
{
}

/// Law: a flush of a buffer whose bytes are not valid text fails, delivers
/// nothing to the widget, and still leaves the buffer empty: the bytes are
/// lost, and a following flush is a no-op that succeeds.
pub proof fn lemma_flush_malformed(m: AdapterModel)
    requires
        m.pending.len() > 0,
        utf8_text(m.pending) is None,
    ensures
        !flush_ok(m),
        flush_model(m).delivered == m.delivered,
        flush_model(m).pending.len() == 0,
        flush_ok(flush_model(m)),
        flush_model(flush_model(m)) == flush_model(m),
{
}

} // verus!
