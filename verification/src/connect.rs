//! The connection establisher: when to try again and when to give up.
//!
//! The caller makes each attempt, bounded by the connect timeout, and reports
//! how it went. The establisher answers with the session, with the delay
//! before the next attempt, or with the error of the operation.

use crate::codec::WebSocketIO;
use crate::error::{Incident, TransportError};
use crate::retry::{constant_backoff, next_delay, pending_delays, runs_out};
use crate::session::Session;
use std::marker::PhantomData;
use vstd::prelude::*;

verus! {

/// How many connection attempts are made at most, the first one included.
pub const MAX_ATTEMPTS: usize = 20;

/// Milliseconds between two connection attempts.
pub const RETRY_DELAY_MS: u64 = 500;

/// Seconds after which a single connection attempt counts as failed.
pub const CONNECT_TIMEOUT_SECS: u64 = 8;

/// How one connection attempt went.
#[derive(Debug, Clone, Copy, PartialEq, Eq, Structural)]
pub enum AttemptOutcome {
    /// The session is established.
    Connected,
    /// The attempt took longer than the connect timeout.
    TimedOut,
    /// The attempt failed.
    Failed(TransportError),
    /// No request could be made of the endpoint and its headers.
    InvalidRequest,
}

/// Why no session could be established. This is the only error of a streaming
/// operation.
#[derive(Debug, Clone, Copy, PartialEq, Eq, Structural)]
pub enum ConnectionError {
    /// The last attempt took longer than the connect timeout.
    TimedOut,
    /// The last attempt failed.
    Transport(TransportError),
    /// No request could be made of the endpoint and its headers.
    InvalidRequest,
}

/// What the rules of the establisher make of an attempt.
pub enum Ruling {
    /// The session is established.
    Established,
    /// Wait this long, then try again.
    Retry { delay_ms: u64 },
    /// Give up.
    Failed(ConnectionError),
}

impl AttemptOutcome {
    /// Whether another attempt may follow this one: it timed out or failed.
    pub open spec fn retryable(self) -> bool {
        self is TimedOut || self is Failed
    }

    /// The error that the operation fails with if this attempt was the last.
    pub open spec fn error(self) -> ConnectionError {
        match self {
            AttemptOutcome::Failed(error) => ConnectionError::Transport(error),
            AttemptOutcome::InvalidRequest => ConnectionError::InvalidRequest,
            _ => ConnectionError::TimedOut,
        }
    }

    /// The incident that the attempt amounts to: none if it connected.
    pub open spec fn incident(self) -> Option<Incident> {
        if self is Connected {
            None
        } else {
            Some(Incident::ConnectFailed)
        }
    }

    /// The rules of the establisher, given the delays that are still to come.
    ///
    /// An attempt that connected establishes the session. A request that
    /// cannot be made fails the operation at once, since every attempt would
    /// use the same request. An attempt that timed out or failed is followed
    /// by another one after the next delay, as long as a delay is left, and
    /// fails the operation with its own error once none is.
    pub open spec fn ruling(self, retries: Seq<u64>) -> Ruling {
        if self is Connected {
            Ruling::Established
        } else if self.retryable() && retries.len() > 0 {
            Ruling::Retry { delay_ms: retries[0] }
        } else {
            Ruling::Failed(self.error())
        }
    }

    /// What to record of the attempt, if anything.
    pub fn to_incident(&self) -> (incident: Option<Incident>)
        ensures
            incident == self.incident(),
    {
        match self {
            AttemptOutcome::Connected => None,
            _ => Some(Incident::ConnectFailed),
        }
    }
}

/// The delays of a streaming operation at its start: one delay of
/// [`RETRY_DELAY_MS`] before each attempt but the first.
pub open spec fn fresh_retries() -> Seq<u64> {
    Seq::new((MAX_ATTEMPTS - 1) as nat, |i: int| RETRY_DELAY_MS)
}

/// The establisher of one streaming operation over the codec `T`.
pub struct Establisher<T> {
    backoff: backon::ConstantBackoff,
    attempt: usize,
    codec: PhantomData<T>,
}

/// The answer of the establisher to one attempt.
pub enum ConnectStep<T> {
    /// The session is established.
    Established(Session<T>),
    /// Wait `delay_ms` milliseconds, make the next attempt and report it to
    /// `establisher`.
    Retry { establisher: Establisher<T>, delay_ms: u64 },
    /// The operation has failed.
    Failed(ConnectionError),
}

impl<T> Establisher<T> {
    #[verifier::type_invariant]
    spec fn counts_add_up(self) -> bool {
        &&& runs_out(self.backoff)
        &&& 1 <= self.attempt
        &&& self.attempt + pending_delays(self.backoff).len() == MAX_ATTEMPTS
    }
}

impl<T: WebSocketIO> Establisher<T> {
    /// The delays that are still to come, in milliseconds.
    pub closed spec fn retries(&self) -> Seq<u64> {
        pending_delays(self.backoff)
    }

    /// The number of the attempt that is under way, from 1.
    pub closed spec fn attempt(&self) -> nat {
        self.attempt as nat
    }

    /// An establisher at the first attempt.
    pub(crate) fn new() -> (establisher: Establisher<T>)
        ensures
            establisher.retries() == fresh_retries(),
            establisher.attempt() == 1,
    {
        Establisher {
            backoff: constant_backoff(MAX_ATTEMPTS - 1, RETRY_DELAY_MS),
            attempt: 1,
            codec: PhantomData,
        }
    }

    /// The number of the attempt that is under way, from 1.
    pub fn attempt_number(&self) -> (number: usize)
        ensures
            number == self.attempt(),
            1 <= number <= MAX_ATTEMPTS,
            number + self.retries().len() == MAX_ATTEMPTS,
    {
        proof {
            use_type_invariant(self);
        }
        self.attempt
    }

    /// Takes the outcome of the attempt under way and answers as
    /// [`AttemptOutcome::ruling`] says.
    ///
    /// The establisher is used up. Where another attempt follows, the answer
    /// holds the establisher for it, with one delay less to come.
    pub fn on_outcome(self, outcome: AttemptOutcome) -> (step: ConnectStep<T>)
        ensures
            match step {
                ConnectStep::Established(_) => outcome.ruling(self.retries())
                    == Ruling::Established,
                ConnectStep::Retry { establisher, delay_ms } => {
                    &&& outcome.ruling(self.retries()) == Ruling::Retry { delay_ms }
                    &&& establisher.retries() == self.retries().drop_first()
                    &&& establisher.attempt() == self.attempt() + 1
                },
                ConnectStep::Failed(error) => outcome.ruling(self.retries()) == Ruling::Failed(
                    error,
                ),
            },
    {
        proof {
            use_type_invariant(&self);
        }
        let Establisher { backoff, attempt, codec } = self;
        let mut backoff = backoff;
        match outcome {
            AttemptOutcome::Connected => ConnectStep::Established(Session::open()),
            AttemptOutcome::InvalidRequest => ConnectStep::Failed(ConnectionError::InvalidRequest),
            AttemptOutcome::TimedOut => match next_delay(&mut backoff) {
                Some(delay_ms) => ConnectStep::Retry {
                    establisher: Establisher { backoff, attempt: attempt + 1, codec },
                    delay_ms,
                },
                None => ConnectStep::Failed(ConnectionError::TimedOut),
            },
            AttemptOutcome::Failed(error) => match next_delay(&mut backoff) {
                Some(delay_ms) => ConnectStep::Retry {
                    establisher: Establisher { backoff, attempt: attempt + 1, codec },
                    delay_ms,
                },
                None => ConnectStep::Failed(ConnectionError::Transport(error)),
            },
        }
    }
}

} // verus!
