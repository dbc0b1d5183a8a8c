//! Runs one child process whose standard streams are exposed as message
//! channels: a sender of text chunks for its input, and receivers of text
//! chunks for its output and error streams, plus a watcher that kills the
//! process on a cancellation event.
//!
//! The library holds the verified decisions of each worker; the process, its
//! pipes and the threads are driven by the caller.

mod channel;
mod input_relay;
mod launch;
mod output_relay;
mod text;
mod watcher;

pub use channel::{StderrReceiver, StdinSender, StdoutReceiver};
pub use input_relay::{
    input_channel, lemma_input_bytes_in_send_order, InputEnd, InputRelay, InputRelayView,
};
pub use launch::{plan_workers, Error, Pipes, Workers};
pub use output_relay::{
    error_channel, is_chunk_text, lemma_output_text_matches_bytes, output_channel, OutputEnd,
    OutputRelay, OutputRelayView, READ_CHUNK,
};
pub use watcher::{
    lemma_cancel_kills, lemma_cancel_twice_as_once, CancelSignal, Watcher, WatcherState,
};
