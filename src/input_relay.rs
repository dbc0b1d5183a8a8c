//! The stdin relay: drains the input channel into the process's input pipe,
//! one chunk at a time and in order.

use crate::channel::StdinSender;
use crate::text::lemma_encode_utf8_concat;
use std::sync::mpsc::{Receiver, RecvError};
use vstd::prelude::*;
use vstd::string::*;
use vstd::utf8::*;

verus! {

broadcast use vstd::seq_lib::group_seq_properties;

/// Why the stdin relay stopped.
#[derive(Clone, Copy, Debug, PartialEq, Eq, Structural)]
pub enum InputEnd {
    /// The caller dropped the sender and every queued chunk was written.
    InputClosed,
    /// The process no longer accepts input.
    WriteFailed,
}

/// The state of the stdin relay.
pub struct InputRelay {
    rx: Receiver<String>,
    end: Option<InputEnd>,
    pending: Ghost<Option<Seq<char>>>,
    delivered: Ghost<Seq<Seq<char>>>,
    written: Ghost<Seq<Seq<u8>>>,
}

/// What the stdin relay has done: why it stopped, if it has; the chunk whose
/// bytes were handed out and whose write is not yet reported; the text
/// chunks whose bytes reached the pipe, and the byte blocks written for
/// them, in order.
pub ghost struct InputRelayView {
    pub end: Option<InputEnd>,
    pub pending: Option<Seq<char>>,
    pub delivered: Seq<Seq<char>>,
    pub written: Seq<Seq<u8>>,
}

impl View for InputRelay {
    type V = InputRelayView;

    closed spec fn view(&self) -> InputRelayView {
        InputRelayView {
            end: self.end,
            pending: self.pending@,
            delivered: self.delivered@,
            written: self.written@,
        }
    }
}

/// A fresh input channel: the caller's sender and the relay that drains it.
pub fn input_channel() -> (r: (StdinSender, InputRelay))
    ensures
        r.1.wf(),
        r.1@.end is None,
        r.1@.pending is None,
        r.1@.delivered.len() == 0,
{
    let (tx, rx) = std::sync::mpsc::channel::<String>();
    (
        StdinSender(tx),
        InputRelay {
            rx,
            end: None,
            pending: Ghost(None),
            delivered: Ghost(Seq::empty()),
            written: Ghost(Seq::empty()),
        },
    )
}

impl InputRelay {
    /// Each written block is the UTF-8 encoding of its chunk.
    pub open spec fn wf(&self) -> bool {
        &&& self@.written.len() == self@.delivered.len()
        &&& forall|i: int|
            0 <= i < self@.written.len() ==> #[trigger] self@.written[i] == encode_utf8(
                self@.delivered[i],
            )
        &&& self@.end is Some ==> self@.pending is None
    }

    /// Why the relay stopped, if it has.
    pub fn end(&self) -> (r: Option<InputEnd>)
        ensures
            r == self@.end,
    {
        self.end
    }

    /// Takes what the input channel yielded: a chunk gives the bytes to
    /// write, a closed channel stops the relay.
    pub fn on_message(&mut self, msg: Result<String, RecvError>) -> (r: Option<Vec<u8>>)
        requires
            old(self).wf(),
            old(self)@.end is None,
            old(self)@.pending is None,
        ensures
            final(self).wf(),
            final(self)@.delivered == old(self)@.delivered,
            final(self)@.written == old(self)@.written,
            match msg {
                Ok(text) => {
                    &&& r matches Some(bytes) && bytes@ == encode_utf8(text@)
                    &&& final(self)@.pending == Some(text@)
                    &&& final(self)@.end is None
                },
                Err(_) => {
                    &&& r is None
                    &&& final(self)@.pending is None
                    &&& final(self)@.end == Some(InputEnd::InputClosed)
                },
            },
    {
        match msg {
            Ok(text) => {
                let bytes = text.as_str().as_bytes_vec();
                self.pending = Ghost(Some(text@));
                Some(bytes)
            },
            Err(_) => {
                self.end = Some(InputEnd::InputClosed);
                None
            },
        }
    }

    /// Waits for the next chunk on the input channel and hands out its bytes,
    /// or stops the relay when the channel is closed.
    pub fn next_write(&mut self) -> (r: Option<Vec<u8>>)
        requires
            old(self).wf(),
            old(self)@.end is None,
            old(self)@.pending is None,
        ensures
            final(self).wf(),
            final(self)@.delivered == old(self)@.delivered,
            final(self)@.written == old(self)@.written,
            match r {
                Some(bytes) => {
                    &&& final(self)@.end is None
                    &&& final(self)@.pending is Some
                    &&& bytes@ == encode_utf8(final(self)@.pending->Some_0)
                },
                None => final(self)@.end == Some(InputEnd::InputClosed),
            },
    {
        let msg = self.rx.recv();
        self.on_message(msg)
    }

    /// Takes the outcome of writing the pending chunk's bytes: on success the
    /// chunk counts as delivered and the relay goes on; on failure it stops.
    pub fn on_write(&mut self, ok: bool) -> (r: bool)
        requires
            old(self).wf(),
            old(self)@.end is None,
            old(self)@.pending is Some,
        ensures
            final(self).wf(),
            final(self)@.pending is None,
            r == ok,
            ok ==> {
                &&& final(self)@.end is None
                &&& final(self)@.delivered == old(self)@.delivered.push(
                    old(self)@.pending->Some_0,
                )
                &&& final(self)@.written == old(self)@.written.push(
                    encode_utf8(old(self)@.pending->Some_0),
                )
            },
            !ok ==> {
                &&& final(self)@.end == Some(InputEnd::WriteFailed)
                &&& final(self)@.delivered == old(self)@.delivered
                &&& final(self)@.written == old(self)@.written
            },
    {
        if ok {
            let ghost text = self.pending@->Some_0;
            self.delivered = Ghost(self.delivered@.push(text));
            self.written = Ghost(self.written@.push(encode_utf8(text)));
            self.pending = Ghost(None);
            true
        } else {
            self.pending = Ghost(None);
            self.end = Some(InputEnd::WriteFailed);
            false
        }
    }
}

/// The relay writes what it took from its channel in the order it took it:
/// the written blocks, joined, are the encoding of the delivered chunks,
/// joined.
pub proof fn lemma_input_bytes_in_send_order(relay: &InputRelay)
    requires
        relay.wf(),
    ensures
        relay@.written.flatten() == encode_utf8(relay@.delivered.flatten()),
{
    lemma_flattened_encodings(relay@.delivered, relay@.written);
}

proof fn lemma_flattened_encodings(chunks: Seq<Seq<char>>, blocks: Seq<Seq<u8>>)
    requires
        blocks.len() == chunks.len(),
        forall|i: int| 0 <= i < blocks.len() ==> #[trigger] blocks[i] == encode_utf8(chunks[i]),
    ensures
        blocks.flatten() == encode_utf8(chunks.flatten()),
    decreases chunks.len(),
{
    if chunks.len() > 0 {
        let rest_c = chunks.drop_first();
        let rest_b = blocks.drop_first();
        assert forall|i: int| 0 <= i < rest_b.len() implies #[trigger] rest_b[i] == encode_utf8(
            rest_c[i],
        ) by {
            assert(rest_b[i] == blocks[i + 1]);
        }
        lemma_flattened_encodings(rest_c, rest_b);
        lemma_encode_utf8_concat(chunks.first(), rest_c.flatten());
        assert(blocks.first() == encode_utf8(chunks.first()));
    }
}

} // verus!
