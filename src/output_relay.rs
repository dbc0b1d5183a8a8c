//! The stdout and stderr relays: read the process's output pipe in bounded
//! chunks, decode each chunk to text, and forward it on a channel in order.

use crate::channel::{StderrReceiver, StdoutReceiver};
use crate::text::lemma_decode_utf8_concat;
use std::sync::mpsc::Sender;
use vstd::prelude::*;
use vstd::utf8::*;

verus! {

broadcast use vstd::seq_lib::group_seq_properties;

/// The most bytes one read of an output pipe takes.
pub const READ_CHUNK: usize = 128;

/// What `String::from_utf8_lossy` yields for a byte sequence.
pub uninterp spec fn lossy_of(b: Seq<u8>) -> Seq<char>;

/// Relies on `String::from_utf8_lossy`: valid UTF-8 is decoded as it is, and
/// any other sequence is decoded with one replacement character for each
/// invalid part of one or more bytes. So every byte ends up in exactly one
/// character of the result, and each character stands for at least one
/// byte; the result depends on the bytes alone.
#[verifier::external_body]
fn decode_lossy(b: &[u8]) -> (r: String)
    ensures
        r@ == lossy_of(b@),
        valid_utf8(b@) ==> r@ == decode_utf8(b@),
        b@.len() > 0 ==> r@.len() > 0,
        r@.len() <= b@.len(),
{
    String::from_utf8_lossy(b).into_owned()
}

/// `s` is the text an output relay forwards for the read `b`: the lossy
/// decoding of at least one and at most `READ_CHUNK` bytes, exact where the
/// bytes are valid UTF-8.
pub open spec fn is_chunk_text(s: Seq<char>, b: Seq<u8>) -> bool {
    &&& 1 <= b.len() <= READ_CHUNK
    &&& s == lossy_of(b)
    &&& valid_utf8(b) ==> s == decode_utf8(b)
}

/// One message on an output channel: the text forwarded for one read, with
/// the bytes it was decoded from.
pub(crate) struct Chunk {
    text: String,
    source: Ghost<Seq<u8>>,
}

impl Chunk {
    #[verifier::type_invariant]
    spec fn inv(self) -> bool {
        &&& is_chunk_text(self.text@, self.source@)
        &&& 0 < self.text@.len() <= self.source@.len()
    }

    /// The chunk's text, as characters.
    pub(crate) closed spec fn spec_text(&self) -> Seq<char> {
        self.text@
    }

    /// The chunk's text.
    pub(crate) fn into_text(self) -> (r: String)
        ensures
            r@ == self.spec_text(),
            0 < r@.len() <= READ_CHUNK,
            exists|b: Seq<u8>| is_chunk_text(r@, b),
    {
        proof {
            use_type_invariant(&self);
        }
        let ghost b = self.source@;
        let text = self.text;
        assert(is_chunk_text(text@, b));
        text
    }
}

/// Why an output relay stopped.
#[derive(Clone, Copy, Debug, PartialEq, Eq, Structural)]
pub enum OutputEnd {
    /// A read returned no bytes: the process closed the stream.
    EndOfStream,
    /// A read of the pipe failed.
    ReadFailed,
    /// The caller dropped the receiving handle.
    ReceiverDropped,
}

/// The state of an output relay.
pub struct OutputRelay {
    tx: Sender<Chunk>,
    end: Option<OutputEnd>,
    chunks: Ghost<Seq<Seq<u8>>>,
    texts: Ghost<Seq<Seq<char>>>,
}

/// What an output relay has done: why it stopped, if it has, the byte chunks
/// read from the pipe whose text reached the channel, and that text, in
/// order.
pub ghost struct OutputRelayView {
    pub end: Option<OutputEnd>,
    pub chunks: Seq<Seq<u8>>,
    pub texts: Seq<Seq<char>>,
}

impl View for OutputRelay {
    type V = OutputRelayView;

    closed spec fn view(&self) -> OutputRelayView {
        OutputRelayView { end: self.end, chunks: self.chunks@, texts: self.texts@ }
    }
}

/// A fresh output channel: the relay that fills it and the caller's receiver.
pub fn output_channel() -> (r: (OutputRelay, StdoutReceiver))
    ensures
        r.0.wf(),
        r.0@.end is None,
        r.0@.chunks.len() == 0,
{
    let (tx, rx) = std::sync::mpsc::channel::<Chunk>();
    (OutputRelay::new(tx), StdoutReceiver(rx))
}

/// A fresh error channel: the relay that fills it and the caller's receiver.
pub fn error_channel() -> (r: (OutputRelay, StderrReceiver))
    ensures
        r.0.wf(),
        r.0@.end is None,
        r.0@.chunks.len() == 0,
{
    let (tx, rx) = std::sync::mpsc::channel::<Chunk>();
    (OutputRelay::new(tx), StderrReceiver(rx))
}

impl OutputRelay {
    /// Each forwarded text is the text of its chunk, a read of at least one
    /// and at most `READ_CHUNK` bytes.
    pub open spec fn wf(&self) -> bool {
        &&& self@.texts.len() == self@.chunks.len()
        &&& forall|i: int|
            0 <= i < self@.chunks.len() ==> is_chunk_text(
                #[trigger] self@.texts[i],
                self@.chunks[i],
            )
    }

    fn new(tx: Sender<Chunk>) -> (r: OutputRelay)
        ensures
            r.wf(),
            r@.end is None,
            r@.chunks.len() == 0,
    {
        OutputRelay { tx, end: None, chunks: Ghost(Seq::empty()), texts: Ghost(Seq::empty()) }
    }

    /// Why the relay stopped, if it has.
    pub fn end(&self) -> (r: Option<OutputEnd>)
        ensures
            r == self@.end,
    {
        self.end
    }

    /// Takes the outcome of one read of the pipe (`None` for a failed read,
    /// else the bytes read) and says whether to read again.
    ///
    /// A failed read or an empty one stops the relay. Otherwise the chunk is
    /// decoded and sent; if the receiver is gone the relay stops without
    /// recording the chunk.
    pub fn on_read(&mut self, read: Option<&[u8]>) -> (r: bool)
        requires
            old(self).wf(),
            old(self)@.end is None,
            read matches Some(b) ==> b@.len() <= READ_CHUNK,
        ensures
            final(self).wf(),
            r <==> final(self)@.end is None,
            match read {
                None => {
                    &&& final(self)@.end == Some(OutputEnd::ReadFailed)
                    &&& final(self)@.chunks == old(self)@.chunks
                    &&& final(self)@.texts == old(self)@.texts
                },
                Some(b) => if b@.len() == 0 {
                    &&& final(self)@.end == Some(OutputEnd::EndOfStream)
                    &&& final(self)@.chunks == old(self)@.chunks
                    &&& final(self)@.texts == old(self)@.texts
                } else if r {
                    &&& final(self)@.chunks == old(self)@.chunks.push(b@)
                    &&& final(self)@.texts == old(self)@.texts.push(lossy_of(b@))
                } else {
                    &&& final(self)@.end == Some(OutputEnd::ReceiverDropped)
                    &&& final(self)@.chunks == old(self)@.chunks
                    &&& final(self)@.texts == old(self)@.texts
                },
            },
    {
        match read {
            None => {
                self.end = Some(OutputEnd::ReadFailed);
                false
            },
            Some(b) => {
                if b.len() == 0 {
                    self.end = Some(OutputEnd::EndOfStream);
                    return false;
                }
                let text = decode_lossy(b);
                let ghost t = text@;
                let chunk = Chunk { text, source: Ghost(b@) };
                match self.tx.send(chunk) {
                    Ok(()) => {
                        self.chunks = Ghost(self.chunks@.push(b@));
                        self.texts = Ghost(self.texts@.push(t));
                        true
                    },
                    Err(_) => {
                        self.end = Some(OutputEnd::ReceiverDropped);
                        false
                    },
                }
            },
        }
    }
}

/// Where no chunk splits a character, the texts the relay sent on its
/// channel, joined, are the decoding of the chunks it read from the pipe and
/// forwarded, joined.
pub proof fn lemma_output_text_matches_bytes(relay: &OutputRelay)
    requires
        relay.wf(),
        forall|i: int| 0 <= i < relay@.chunks.len() ==> valid_utf8(#[trigger] relay@.chunks[i]),
    ensures
        valid_utf8(relay@.chunks.flatten()),
        relay@.texts.flatten() == decode_utf8(relay@.chunks.flatten()),
{
    let chunks = relay@.chunks;
    let texts = relay@.texts;
    assert forall|i: int| 0 <= i < chunks.len() implies valid_utf8(#[trigger] chunks[i])
        && texts[i] == decode_utf8(chunks[i]) by {
        assert(is_chunk_text(texts[i], chunks[i]));
    }
    lemma_flattened_decodings(chunks, texts);
}

proof fn lemma_flattened_decodings(chunks: Seq<Seq<u8>>, texts: Seq<Seq<char>>)
    requires
        texts.len() == chunks.len(),
        forall|i: int|
            0 <= i < chunks.len() ==> valid_utf8(#[trigger] chunks[i]) && texts[i] == decode_utf8(
                chunks[i],
            ),
    ensures
        valid_utf8(chunks.flatten()),
        texts.flatten() == decode_utf8(chunks.flatten()),
    decreases chunks.len(),
{
    if chunks.len() > 0 {
        let rest_c = chunks.drop_first();
        let rest_t = texts.drop_first();
        assert forall|i: int| 0 <= i < rest_c.len() implies valid_utf8(#[trigger] rest_c[i])
            && rest_t[i] == decode_utf8(rest_c[i]) by {
            assert(rest_c[i] == chunks[i + 1]);
            assert(valid_utf8(chunks[i + 1]));
        }
        lemma_flattened_decodings(rest_c, rest_t);
        assert(valid_utf8(chunks[0]));
        lemma_decode_utf8_concat(chunks.first(), rest_c.flatten());
    }
}

} // verus!
