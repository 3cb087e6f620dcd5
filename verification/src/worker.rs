//! The consumer-side session worker: one connection to the relay at a
//! time, reconnecting after a fixed delay when the connection is lost.
//! The worker is a state machine; the surrounding task performs the
//! connection attempts, stream reads and sleeps, and hands the results
//! back as events.
use vstd::prelude::*;
use crate::msg::Message;

verus! {

/// How long, in milliseconds, to wait between connection attempts.
pub const RECONNECT_DELAY_MS: u64 = 5000;

/// What the surrounding task observed: the outcome of a connection
/// attempt while disconnected, or of a stream read while connected.
pub enum SessionEvent {
    ConnectSucceeded,
    ConnectFailed,
    StreamItem(Message),
    StreamFailed,
}

/// What the worker tells its consumer after an event: the connection came
/// up, it was lost, a message arrived, or nothing worth reporting.
pub enum SessionOutput {
    ConnectionReady,
    ConnectionLost,
    Received(Message),
    Nothing,
}

/// The session worker's state: whether a connection is live, and whether
/// a connection attempt has been made before (a first attempt starts at
/// once; later ones wait out the reconnect delay).
pub struct Worker {
    connected: bool,
    attempted: bool,
}

impl Worker {
    /// A live connection exists.
    pub closed spec fn is_connected(&self) -> bool {
        self.connected
    }

    /// A connection attempt has been made before.
    pub closed spec fn has_attempted(&self) -> bool {
        self.attempted
    }

    /// A worker that has never connected nor tried to.
    pub fn new() -> (w: Worker)
        ensures
            !w.is_connected(),
            !w.has_attempted(),
    {
        Worker { connected: false, attempted: false }
    }

    /// Consumes one observation. While disconnected, a successful attempt
    /// brings the connection up; a failed one records the attempt. While
    /// connected, a received message is passed on; a failed read drops
    /// back to disconnected, again recording the moment as an attempt.
    pub fn on_event(&mut self, event: SessionEvent) -> (out: SessionOutput)
        requires
            match event {
                SessionEvent::ConnectSucceeded => !old(self).is_connected(),
                SessionEvent::ConnectFailed => !old(self).is_connected(),
                SessionEvent::StreamItem(_) => old(self).is_connected(),
                SessionEvent::StreamFailed => old(self).is_connected(),
            },
        ensures
            match event {
                SessionEvent::ConnectSucceeded => {
                    &&& final(self).is_connected()
                    &&& !final(self).has_attempted()
                    &&& out == SessionOutput::ConnectionReady
                },
                SessionEvent::ConnectFailed => {
                    &&& !final(self).is_connected()
                    &&& final(self).has_attempted()
                    &&& out == SessionOutput::Nothing
                },
                SessionEvent::StreamItem(m) => {
                    &&& *final(self) == *old(self)
                    &&& out == SessionOutput::Received(m)
                },
                SessionEvent::StreamFailed => {
                    &&& !final(self).is_connected()
                    &&& final(self).has_attempted()
                    &&& out == SessionOutput::ConnectionLost
                },
            },
    {
        match event {
            SessionEvent::ConnectSucceeded => {
                self.connected = true;
                self.attempted = false;
                SessionOutput::ConnectionReady
            },
            SessionEvent::ConnectFailed => {
                self.connected = false;
                self.attempted = true;
                SessionOutput::Nothing
            },
            SessionEvent::StreamItem(m) => SessionOutput::Received(m),
            SessionEvent::StreamFailed => {
                self.connected = false;
                self.attempted = true;
                SessionOutput::ConnectionLost
            },
        }
    }

    /// How long to wait before the next connection attempt, given how
    /// many milliseconds have passed since the last one: the full delay
    /// minus the time already spent, zero for a first attempt and zero
    /// once the delay has run out.
    pub fn reconnect_wait_ms(&self, elapsed_ms: u64) -> (wait: u64)
        requires
            !self.is_connected(),
        ensures
            wait == if !self.has_attempted() {
                0u64
            } else if elapsed_ms >= RECONNECT_DELAY_MS {
                0u64
            } else {
                (RECONNECT_DELAY_MS - elapsed_ms) as u64
            },
    {
        if !self.attempted {
            0
        } else if elapsed_ms >= RECONNECT_DELAY_MS {
            0
        } else {
            RECONNECT_DELAY_MS - elapsed_ms
        }
    }
}

} // verus!
