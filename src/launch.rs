//! Starting a run: which workers a spawned process gets, and the run's error.

use std::sync::mpsc::SendError;
use vstd::prelude::*;

verus! {

#[verifier::external_type_specification]
#[verifier::external_body]
pub struct ExIoError(std::io::Error);

/// Why a run could not start, or a handle could not be used.
#[derive(Debug)]
pub enum Error {
    /// The process could not be spawned.
    IoError(std::io::Error),
    /// A chunk could not be queued for the process's input.
    SendError(SendError<String>),
    /// A worker could not be joined.
    ThreadCouldNotJoin(String),
}

/// Which of the three pipe endpoints the spawned process provides.
#[derive(Clone, Copy, Debug, PartialEq, Eq, Structural)]
pub struct Pipes {
    pub stdin: bool,
    pub stdout: bool,
    pub stderr: bool,
}

/// Which workers a run starts.
#[derive(Clone, Copy, Debug, PartialEq, Eq, Structural)]
pub struct Workers {
    pub stdin_relay: bool,
    pub stdout_relay: bool,
    pub stderr_relay: bool,
    pub watcher: bool,
}

/// Decides the workers of a run from the outcome of spawning its process:
/// a failed spawn is the run's error and starts nothing; a spawned process
/// gets one relay per pipe endpoint it provides, and always a watcher.
pub fn plan_workers(spawned: Result<Pipes, std::io::Error>) -> (r: Result<Workers, Error>)
    ensures
        match spawned {
            Ok(p) => r == Ok::<Workers, Error>(
                Workers {
                    stdin_relay: p.stdin,
                    stdout_relay: p.stdout,
                    stderr_relay: p.stderr,
                    watcher: true,
                },
            ),
            Err(e) => r == Err::<Workers, Error>(Error::IoError(e)),
        },
{
    match spawned {
        Ok(p) => Ok(
            Workers {
                stdin_relay: p.stdin,
                stdout_relay: p.stdout,
                stderr_relay: p.stderr,
                watcher: true,
            },
        ),
        Err(e) => Err(Error::IoError(e)),
    }
}

impl From<std::io::Error> for Error {
    fn from(e: std::io::Error) -> (r: Error) {
        Error::IoError(e)
    }
}

impl vstd::std_specs::convert::FromSpecImpl<std::io::Error> for Error {
    open spec fn obeys_from_spec() -> bool {
        true
    }

    open spec fn from_spec(e: std::io::Error) -> Error {
        Error::IoError(e)
    }
}

impl From<SendError<String>> for Error {
    fn from(e: SendError<String>) -> (r: Error) {
        Error::SendError(e)
    }
}

impl vstd::std_specs::convert::FromSpecImpl<SendError<String>> for Error {
    open spec fn obeys_from_spec() -> bool {
        true
    }

    open spec fn from_spec(e: SendError<String>) -> Error {
        Error::SendError(e)
    }
}

} // verus!
