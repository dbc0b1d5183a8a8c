//! The cancellation watcher: waits for one cancellation event and then asks
//! for the process to be killed, once.

use vstd::prelude::*;

verus! {

/// What the cancellation subscription delivered.
#[derive(Clone, Copy, Debug, PartialEq, Eq, Structural)]
pub enum CancelSignal {
    /// A cancellation event was published.
    Raised,
    /// The publishing side went away with nothing published.
    Closed,
}

/// The watcher's state.
#[derive(Clone, Copy, Debug, PartialEq, Eq, Structural)]
pub enum WatcherState {
    /// Waiting for a cancellation event.
    Armed,
    /// A cancellation event arrived and the kill was asked for.
    Fired,
    /// The subscription closed before any event; the process is left alone.
    StoodDown,
}

/// One step of the watcher: the next state, and whether to kill the process.
/// Only the first event of an armed watcher kills; after that every signal
/// is ignored.
pub open spec fn watcher_step(s: WatcherState, e: CancelSignal) -> (WatcherState, bool) {
    match s {
        WatcherState::Armed => match e {
            CancelSignal::Raised => (WatcherState::Fired, true),
            CancelSignal::Closed => (WatcherState::StoodDown, false),
        },
        _ => (s, false),
    }
}

/// The cancellation watcher of one run.
pub struct Watcher {
    pub state: WatcherState,
}

impl Watcher {
    /// An armed watcher.
    pub fn new() -> (r: Watcher)
        ensures
            r.state == WatcherState::Armed,
    {
        Watcher { state: WatcherState::Armed }
    }

    /// Whether the watcher still waits for a signal.
    pub fn is_armed(&self) -> (r: bool)
        ensures
            r <==> self.state == WatcherState::Armed,
    {
        self.state == WatcherState::Armed
    }

    /// Takes one signal from the subscription and says whether to kill the
    /// process now.
    pub fn on_signal(&mut self, e: CancelSignal) -> (kill: bool)
        ensures
            (final(self).state, kill) == watcher_step(old(self).state, e),
    {
        match self.state {
            WatcherState::Armed => match e {
                CancelSignal::Raised => {
                    self.state = WatcherState::Fired;
                    true
                },
                CancelSignal::Closed => {
                    self.state = WatcherState::StoodDown;
                    false
                },
            },
            _ => false,
        }
    }
}

/// A cancellation event raised while the watcher waits always kills.
pub proof fn lemma_cancel_kills(s: WatcherState)
    requires
        s == WatcherState::Armed,
    ensures
        watcher_step(s, CancelSignal::Raised) == (WatcherState::Fired, true),
{
}

/// Raising cancellation twice is the same as raising it once: the second
/// event leaves the state as the first left it and kills nothing.
pub proof fn lemma_cancel_twice_as_once(s: WatcherState)
    ensures
        watcher_step(watcher_step(s, CancelSignal::Raised).0, CancelSignal::Raised) == (
            watcher_step(s, CancelSignal::Raised).0,
            false,
        ),
{
}

} // verus!
