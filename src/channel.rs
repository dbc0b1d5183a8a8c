//! The caller-facing channel handles, over std's `mpsc` channels.

use crate::output_relay::{is_chunk_text, Chunk, READ_CHUNK};
use std::sync::mpsc::{Receiver, RecvError, SendError, Sender};
use vstd::prelude::*;

verus! {

#[verifier::external_type_specification]
#[verifier::external_body]
#[verifier::reject_recursive_types(T)]
pub struct ExSender<T>(Sender<T>);

#[verifier::external_type_specification]
#[verifier::external_body]
#[verifier::reject_recursive_types(T)]
pub struct ExReceiver<T>(Receiver<T>);

#[verifier::external_type_specification]
#[verifier::reject_recursive_types(T)]
pub struct ExSendError<T>(SendError<T>);

#[verifier::external_type_specification]
#[verifier::external_body]
pub struct ExRecvError(RecvError);

/// Relies on `Sender::send`: a value that could not be delivered, because
/// the receiving half is gone, is handed back inside the error.
pub assume_specification<T>[ Sender::<T>::send ](s: &Sender<T>, t: T) -> (r: Result<
    (),
    SendError<T>,
>)
    ensures
        r matches Err(e) ==> e.0 == t,
;

/// Relies on `Receiver::recv`: it blocks for the next value; what it yields
/// depends on the other threads, so nothing is stated of it.
pub assume_specification<T>[ Receiver::<T>::recv ](r: &Receiver<T>) -> Result<T, RecvError>;

/// Relies on `mpsc::channel`: a fresh, unbounded channel; nothing about
/// the two halves is visible to the contracts.
pub assume_specification<T>[ std::sync::mpsc::channel::<T> ]() -> (Sender<T>, Receiver<T>);

/// The caller's end of the process's input channel.
pub struct StdinSender(pub(crate) Sender<String>);

/// The caller's end of the process's output channel.
pub struct StdoutReceiver(pub(crate) Receiver<Chunk>);

/// The caller's end of the process's error channel.
pub struct StderrReceiver(pub(crate) Receiver<Chunk>);

impl StdinSender {
    /// Queues one text chunk for the process's input. Fails, handing the
    /// chunk back, when the input relay has already stopped.
    pub fn send(&self, input: String) -> (r: Result<(), SendError<String>>)
        ensures
            r matches Err(e) ==> e.0@ == input@,
    {
        self.0.send(input)
    }
}

impl StdoutReceiver {
    /// Waits for the next chunk of the process's output; fails once the
    /// output relay has stopped and every chunk has been taken.
    ///
    /// Each chunk is the text of one read of the pipe: the lossy decoding of
    /// at least one and at most `READ_CHUNK` bytes, exact where they are valid
    /// UTF-8, never empty and no longer than the bytes it came from.
    pub fn recv(&self) -> (r: Result<String, RecvError>)
        ensures
            r matches Ok(s) ==> {
                &&& 0 < s@.len() <= READ_CHUNK
                &&& exists|b: Seq<u8>| is_chunk_text(s@, b)
            },
    {
        match self.0.recv() {
            Ok(chunk) => Ok(chunk.into_text()),
            Err(e) => Err(e),
        }
    }
}

impl StderrReceiver {
    /// Waits for the next chunk of the process's error stream; fails once
    /// the error relay has stopped and every chunk has been taken.
    ///
    /// Each chunk is the text of one read of the pipe: the lossy decoding of
    /// at least one and at most `READ_CHUNK` bytes, exact where they are valid
    /// UTF-8, never empty and no longer than the bytes it came from.
    pub fn recv(&self) -> (r: Result<String, RecvError>)
        ensures
            r matches Ok(s) ==> {
                &&& 0 < s@.len() <= READ_CHUNK
                &&& exists|b: Seq<u8>| is_chunk_text(s@, b)
            },
    {
        match self.0.recv() {
            Ok(chunk) => Ok(chunk.into_text()),
            Err(e) => Err(e),
        }
    }
}

} // verus!
