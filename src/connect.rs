//! Opening the automation session, with a bounded number of attempts.
use vstd::prelude::*;
use crate::error::AutomationError;

verus! {

/// Port of the local automation server.
pub const WEBDRIVER_PORT: u16 = 4444;

/// How many times a session is asked for.
pub const MAX_RETRIES: u64 = 3;

/// Pause between two connection attempts, in milliseconds.
pub const RETRY_PAUSE_MS: u64 = 500;

/// What the caller must do next.
#[derive(Clone, Copy, Debug, PartialEq, Eq, Structural)]
pub enum ConnectAction {
    /// Ask the server for a session.
    Connect,
    /// Sleep this many milliseconds.
    Pause(u64),
    /// A session is open.
    Connected,
    /// Give up.
    Fail(AutomationError),
}

/// The state of the connection attempts: the action pending and how many
/// attempts have been issued (the pending one included).
#[derive(Clone, Copy, Debug, PartialEq, Eq, Structural)]
pub struct Connector {
    pub port: u16,
    pub attempts: u64,
    pub pending: ConnectAction,
}

impl Connector {
    pub open spec fn wf(&self) -> bool {
        &&& 1 <= self.attempts <= MAX_RETRIES
        &&& (self.pending is Pause ==> self.attempts < MAX_RETRIES)
    }
}

/// The state after the pending action; `ok` tells whether a connection
/// attempt succeeded and is not read for a pause.
pub open spec fn connect_step(c: Connector, ok: bool) -> Connector {
    match c.pending {
        ConnectAction::Connect => if ok {
            Connector { pending: ConnectAction::Connected, ..c }
        } else if c.attempts < MAX_RETRIES {
            Connector { pending: ConnectAction::Pause(RETRY_PAUSE_MS), ..c }
        } else {
            Connector { pending: ConnectAction::Fail(AutomationError::ConnectionFailed), ..c }
        },
        ConnectAction::Pause(_) => Connector {
            attempts: (c.attempts + 1) as u64,
            pending: ConnectAction::Connect,
            ..c
        },
        _ => c,
    }
}

impl Connector {
    /// Connection attempts against the server on `port`; the first action is
    /// `Connect`.
    pub fn new(port: u16) -> (r: Connector)
        ensures
            r == (Connector { port, attempts: 1, pending: ConnectAction::Connect }),
            r.wf(),
    {
        Connector { port, attempts: 1, pending: ConnectAction::Connect }
    }

    /// The action the caller must perform now.
    pub fn pending(&self) -> (r: ConnectAction)
        ensures
            r == self.pending,
    {
        self.pending
    }

    /// Records the outcome of the pending action.
    pub fn advance(&mut self, ok: bool)
        requires
            old(self).wf(),
        ensures
            *final(self) == connect_step(*old(self), ok),
            final(self).wf(),
    {
        match self.pending {
            ConnectAction::Connect => {
                if ok {
                    self.pending = ConnectAction::Connected;
                } else if self.attempts < MAX_RETRIES {
                    self.pending = ConnectAction::Pause(RETRY_PAUSE_MS);
                } else {
                    self.pending = ConnectAction::Fail(AutomationError::ConnectionFailed);
                }
            },
            ConnectAction::Pause(_) => {
                self.attempts = self.attempts + 1;
                self.pending = ConnectAction::Connect;
            },
            _ => {},
        }
    }
}

} // verus!
