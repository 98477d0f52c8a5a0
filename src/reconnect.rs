use vstd::prelude::*;

verus! {

/// Seconds a dial may take before the client gives up for good.
pub const CONNECT_TIMEOUT_SECS: u64 = 20;

/// Seconds the client waits after a failed or ended session before it dials again.
pub const REDIAL_DELAY_SECS: u64 = 5;

/// How one connection attempt, with the session it carried, failed.
#[derive(Clone, Debug)]
pub enum ConnectError {
    /// The server could not be reached within the connect timeout.
    Timeout { msg: String },
    /// Anything else: handshake, heartbeat, protocol or forwarding failure.
    Other { msg: String },
}

pub open spec fn timeout_message() -> Seq<char> {
    "failed to connect to the server after 20 secs"@
}

impl ConnectError {
    /// The error of a dial that hit the connect timeout.
    pub fn timeout() -> (r: ConnectError)
        ensures
            r is Timeout,
            r->Timeout_msg@ == timeout_message(),
    {
        let msg = "failed to connect to the server after 20 secs".to_owned();
        proof {
            reveal_strlit("failed to connect to the server after 20 secs");
        }
        ConnectError::Timeout { msg }
    }

    /// The message that describes this error.
    pub fn message(&self) -> (r: String)
        ensures
            self is Timeout ==> r@ == self->Timeout_msg@,
            self is Other ==> r@ == self->Other_msg@,
    {
        match self {
            ConnectError::Timeout { msg } => msg.clone(),
            ConnectError::Other { msg } => msg.clone(),
        }
    }
}

/// What the reconnection controller does after an attempt.
#[derive(Clone, Copy, Debug, PartialEq, Eq, Structural)]
pub enum ControllerAction {
    /// Make no further attempt.
    Stop,
    /// Wait `delay_secs` seconds, then dial again.
    Redial { delay_secs: u64 },
}

/// The client's reconnection policy: it stops for good after a connect timeout.
#[derive(Clone, Copy, Debug)]
pub struct ReconnectController {
    pub stopped: bool,
}

/// The action after an attempt that ended with `timed_out` (or with anything else),
/// from a controller that has (or has not) stopped.
pub open spec fn after_attempt(stopped: bool, timed_out: bool) -> ControllerAction {
    if stopped || timed_out {
        ControllerAction::Stop
    } else {
        ControllerAction::Redial { delay_secs: REDIAL_DELAY_SECS }
    }
}

impl ReconnectController {
    pub fn new() -> (r: ReconnectController)
        ensures
            !r.stopped,
    {
        ReconnectController { stopped: false }
    }

    /// Whether another dial is to be made.
    pub fn may_dial(&self) -> (r: bool)
        ensures
            r == !self.stopped,
    {
        !self.stopped
    }

    /// Takes the outcome of one attempt: `Ok` when the session ended without error.
    pub fn on_outcome(&mut self, outcome: &Result<(), ConnectError>) -> (r: ControllerAction)
        ensures
            r == after_attempt(old(self).stopped, outcome matches Err(ConnectError::Timeout { .. })),
            final(self).stopped == (r == ControllerAction::Stop),
    {
        let timed_out = match outcome {
            Err(ConnectError::Timeout { .. }) => true,
            _ => false,
        };
        if self.stopped || timed_out {
            self.stopped = true;
            ControllerAction::Stop
        } else {
            ControllerAction::Redial { delay_secs: REDIAL_DELAY_SECS }
        }
    }
}

/// A connect timeout stops the controller for good: every later outcome is met with
/// `Stop`. Every other outcome of a running controller is met with a redial after
/// the fixed delay.
pub proof fn lemma_timeout_is_final(later_timed_out: bool)
    ensures
        after_attempt(false, true) == ControllerAction::Stop,
        after_attempt(true, later_timed_out) == ControllerAction::Stop,
        after_attempt(false, false) == (ControllerAction::Redial { delay_secs: 5 }),
{
}

} // verus!
