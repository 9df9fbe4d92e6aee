//! The reconnection supervisor: forced periodic refresh and failure-driven
//! reconnection with a bounded number of attempts and a fixed delay between
//! them. The caller performs each command and reports each outcome.
use vstd::prelude::*;

use crate::error::Error;
use crate::messages::opt_text;
use crate::request::{all_have_tokens, subscribe_request, subscribe_text, SubscribeInfo};

verus! {

/// Failed connection attempts allowed before giving up: the attempt after
/// the last of them is not made.
pub const MAX_RECONNECT_ATTEMPTS: u32 = 12;

/// Seconds to wait before each new connection attempt.
pub const RETRY_DELAY_SECS: u64 = 5;

/// Seconds between two forced refreshes of a healthy connection (24 hours).
pub const REFRESH_INTERVAL_SECS: u64 = 86400;

#[derive(Clone, Copy, Debug, PartialEq, Eq, Structural)]
pub enum Phase {
    Running,
    Reconnecting,
    Failed,
}

#[derive(Clone, Copy, Debug, PartialEq, Eq, Structural)]
pub enum Event {
    /// The stream of messages is exhausted.
    StreamEnded,
    /// The periodic refresh timer fired.
    RefreshTick,
    ConnectSucceeded,
    ConnectFailed,
}

/// What the caller does next.
#[derive(Debug, PartialEq, Eq)]
pub enum Command {
    /// Disconnect the current session, then attempt to connect.
    Reconnect,
    /// Wait this many seconds, then attempt to connect again.
    RetryAfter(u64),
    /// Send this subscribe request (none when nothing is subscribed).
    Resubscribe(Option<String>),
    /// Nothing to do.
    Idle,
}

/// The kind of a decision, without its payload.
#[derive(Clone, Copy, Debug, PartialEq, Eq, Structural)]
pub enum Decision {
    Reconnect,
    Retry,
    Resubscribe,
    Idle,
    GiveUp,
}

/// Phase and failure count after an event.
pub open spec fn next_phase(p: Phase, failures: nat, e: Event) -> (Phase, nat) {
    match (p, e) {
        (Phase::Running, Event::StreamEnded) => (Phase::Reconnecting, 0),
        (Phase::Running, Event::RefreshTick) => (Phase::Reconnecting, 0),
        (Phase::Reconnecting, Event::ConnectSucceeded) => (Phase::Running, 0),
        (Phase::Reconnecting, Event::ConnectFailed) => if failures + 1 > MAX_RECONNECT_ATTEMPTS {
            (Phase::Failed, failures + 1)
        } else {
            (Phase::Reconnecting, failures + 1)
        },
        _ => (p, failures),
    }
}

/// What is decided on an event.
pub open spec fn decision(p: Phase, failures: nat, e: Event) -> Decision {
    match (p, e) {
        (Phase::Running, Event::StreamEnded) => Decision::Reconnect,
        (Phase::Running, Event::RefreshTick) => Decision::Reconnect,
        (Phase::Reconnecting, Event::ConnectSucceeded) => Decision::Resubscribe,
        (Phase::Reconnecting, Event::ConnectFailed) => if failures + 1 > MAX_RECONNECT_ATTEMPTS {
            Decision::GiveUp
        } else {
            Decision::Retry
        },
        (Phase::Failed, _) => Decision::GiveUp,
        _ => Decision::Idle,
    }
}

/// Phase and failure count after `n` failed attempts in a row, from the
/// start of a reconnect cycle.
pub open spec fn after_failures(n: nat) -> (Phase, nat)
    decreases n,
{
    if n == 0 {
        (Phase::Reconnecting, 0)
    } else {
        let (p, f) = after_failures((n - 1) as nat);
        next_phase(p, f, Event::ConnectFailed)
    }
}

/// Owns the subscription set across reconnects.
#[derive(Debug)]
pub struct Supervisor {
    pub phase: Phase,
    pub failures: u32,
    pub subscriptions: Vec<SubscribeInfo>,
}

impl Supervisor {
    pub open spec fn wf(&self) -> bool {
        &&& all_have_tokens(self.subscriptions@)
        &&& self.failures <= MAX_RECONNECT_ATTEMPTS + 1
        &&& self.phase != Phase::Failed ==> self.failures <= MAX_RECONNECT_ATTEMPTS
    }

    /// A supervisor of a running connection subscribed to `subscriptions`.
    pub fn new(subscriptions: Vec<SubscribeInfo>) -> (r: Supervisor)
        requires
            all_have_tokens(subscriptions@),
        ensures
            r.wf(),
            r.phase == Phase::Running,
            r.failures == 0,
            r.subscriptions == subscriptions,
    {
        Supervisor { phase: Phase::Running, failures: 0, subscriptions }
    }

    /// Handles one event. An exhausted stream or a refresh tick starts a
    /// reconnect cycle; a failed attempt is retried after a fixed delay until
    /// the attempts exceed the cap, when `ReconnectionTimeout` is returned and
    /// the supervisor stays failed; a successful attempt re-issues the whole
    /// subscription set.
    pub fn on_event(&mut self, e: Event) -> (r: Result<Command, Error>)
        requires
            old(self).wf(),
        ensures
            final(self).wf(),
            final(self).subscriptions == old(self).subscriptions,
            (final(self).phase, final(self).failures as nat) == next_phase(
                old(self).phase,
                old(self).failures as nat,
                e,
            ),
            ({
                let d = decision(old(self).phase, old(self).failures as nat, e);
                &&& d == Decision::Reconnect ==> (r matches Ok(Command::Reconnect))
                &&& d == Decision::Retry ==> (r matches Ok(Command::RetryAfter(n)) && n
                    == RETRY_DELAY_SECS)
                &&& d == Decision::Resubscribe ==> (r matches Ok(Command::Resubscribe(t)) && opt_text(t)
                    == subscribe_text(old(self).subscriptions@, None))
                &&& d == Decision::Idle ==> (r matches Ok(Command::Idle))
                &&& d == Decision::GiveUp ==> (r matches Err(Error::ReconnectionTimeout))
            }),
    {
        match (self.phase, e) {
            (Phase::Running, Event::StreamEnded) | (Phase::Running, Event::RefreshTick) => {
                self.phase = Phase::Reconnecting;
                self.failures = 0;
                Ok(Command::Reconnect)
            },
            (Phase::Reconnecting, Event::ConnectSucceeded) => {
                self.phase = Phase::Running;
                self.failures = 0;
                let req = subscribe_request(self.subscriptions.as_slice(), None);
                Ok(Command::Resubscribe(req))
            },
            (Phase::Reconnecting, Event::ConnectFailed) => {
                self.failures = self.failures + 1;
                if self.failures > MAX_RECONNECT_ATTEMPTS {
                    self.phase = Phase::Failed;
                    Err(Error::ReconnectionTimeout)
                } else {
                    Ok(Command::RetryAfter(RETRY_DELAY_SECS))
                }
            },
            (Phase::Failed, _) => Err(Error::ReconnectionTimeout),
            _ => Ok(Command::Idle),
        }
    }
}

/// Within a reconnect cycle, each of the first twelve consecutive failed
/// attempts is followed by a delayed retry, and the thirteenth gives up with
/// `ReconnectionTimeout`: no fourteenth attempt is made.
pub proof fn lemma_retry_cap(k: nat)
    requires
        k <= MAX_RECONNECT_ATTEMPTS,
    ensures
        after_failures(k) == (Phase::Reconnecting, k),
        k < MAX_RECONNECT_ATTEMPTS ==> decision(Phase::Reconnecting, k, Event::ConnectFailed)
            == Decision::Retry,
        k == MAX_RECONNECT_ATTEMPTS ==> decision(Phase::Reconnecting, k, Event::ConnectFailed)
            == Decision::GiveUp,
        k == MAX_RECONNECT_ATTEMPTS ==> after_failures(k + 1).0 == Phase::Failed,
    decreases k,
{
    if k > 0 {
        lemma_retry_cap((k - 1) as nat);
    }
}

} // verus!
