//! The receiver loop: which inbound frame becomes a result, and what ends the
//! sequence of results.
//!
//! The loop owns the read half of a session. Its caller waits for the next
//! inbound frame, for at most the idle timeout, and reports what came. The
//! loop never answers with an error: whatever goes wrong on the socket, the
//! sequence of results just ends.

use crate::codec::{decodes, WebSocketIO};
use crate::error::{Incident, TransportError};
use crate::message::{FrameKind, Message};
use std::marker::PhantomData;
use vstd::prelude::*;

verus! {

/// Seconds without an inbound frame after which the receiver loop gives up.
pub const IDLE_TIMEOUT_SECS: u64 = 30;

/// What the caller reports to the receiver loop.
#[derive(Debug, Clone, PartialEq, Eq)]
pub enum ReceiverEvent {
    /// A frame arrived.
    Frame(Message),
    /// Reading failed.
    Failed(TransportError),
    /// The remote side closed the socket without a frame.
    EndOfStream,
    /// No frame arrived within the idle timeout.
    IdleTimeout,
}

/// What an event amounts to once the codec has seen the frame, if it holds
/// data.
#[derive(Debug, Clone, PartialEq, Eq)]
pub enum Inbound<O> {
    /// A data frame, and what the codec made of it.
    Data(Option<O>),
    /// A ping, a pong or other framing that holds nothing for the consumer.
    Control,
    /// The remote side ends the session in an orderly way.
    Close,
    /// Reading failed.
    Failed(TransportError),
    /// The remote side closed the socket without a frame.
    EndOfStream,
    /// No frame arrived within the idle timeout.
    IdleTimeout,
}

/// What the caller has to do next.
#[derive(Debug, Clone, PartialEq, Eq)]
pub enum ReceiverAction<O> {
    /// Hand this result to the consumer, then wait for the next frame.
    Yield(O),
    /// Wait for the next frame.
    Continue,
    /// The sequence of results is over.
    End,
}

/// The answer of the receiver loop to one event.
#[derive(Debug, Clone, PartialEq, Eq)]
pub struct ReceiverStep<O> {
    /// What to do next.
    pub action: ReceiverAction<O>,
    /// What went wrong, if anything did. It is for the record only.
    pub incident: Option<Incident>,
}

/// What the rules of the receiver loop make of an event.
pub struct Verdict<O> {
    pub ended: bool,
    pub step: ReceiverStep<O>,
}

impl<O> Inbound<O> {
    /// Whether the event ends the sequence of results: an orderly close, a
    /// failed read, the end of the connection, or the idle timeout.
    pub open spec fn ends(self) -> bool {
        self is Close || self is Failed || self is EndOfStream || self is IdleTimeout
    }

    /// The incident that the event amounts to, if any.
    pub open spec fn incident(self) -> Option<Incident> {
        match self {
            Inbound::Failed(error) => Some(error.receive_incident()),
            Inbound::IdleTimeout => Some(Incident::IdleTimeout),
            _ => None,
        }
    }

    /// The result that the event holds for the consumer, if any.
    pub open spec fn result(self) -> Option<O> {
        match self {
            Inbound::Data(Some(output)) => Some(output),
            _ => None,
        }
    }

    /// The rules of the receiver loop.
    ///
    /// A loop that has ended answers every event with `End`. A running loop
    /// hands on what the codec made of a data frame, if it made anything,
    /// passes over control frames, and ends on everything else.
    pub open spec fn react(self, ended: bool) -> Verdict<O> {
        if ended {
            Verdict {
                ended: true,
                step: ReceiverStep { action: ReceiverAction::End, incident: None },
            }
        } else if self.ends() {
            Verdict {
                ended: true,
                step: ReceiverStep { action: ReceiverAction::End, incident: self.incident() },
            }
        } else {
            Verdict {
                ended: false,
                step: ReceiverStep {
                    action: match self.result() {
                        Some(output) => ReceiverAction::Yield(output),
                        None => ReceiverAction::Continue,
                    },
                    incident: None,
                },
            }
        }
    }
}

/// Whether `signal` is what the event amounts to under the codec `T`: for a
/// text or binary frame what the codec made of it, for any other frame its
/// kind, for anything else the event itself.
pub open spec fn reads<T: WebSocketIO>(event: ReceiverEvent, signal: Inbound<T::Output>) -> bool {
    match event {
        ReceiverEvent::Frame(msg) => match msg@.kind() {
            FrameKind::Text | FrameKind::Binary => {
                &&& signal matches Inbound::Data(output)
                &&& decodes::<T>(msg, output)
            },
            FrameKind::Close => signal is Close,
            _ => signal is Control,
        },
        ReceiverEvent::Failed(error) => signal == Inbound::<T::Output>::Failed(error),
        ReceiverEvent::EndOfStream => signal is EndOfStream,
        ReceiverEvent::IdleTimeout => signal is IdleTimeout,
    }
}

/// Looks at an event and lets the codec decode the frame, if it holds data.
pub fn interpret<T: WebSocketIO>(event: ReceiverEvent) -> (signal: Inbound<T::Output>)
    ensures
        reads::<T>(event, signal),
{
    match event {
        ReceiverEvent::Frame(msg) => match msg.kind() {
            FrameKind::Text | FrameKind::Binary => Inbound::Data(T::from_message(msg)),
            FrameKind::Close => Inbound::Close,
            _ => Inbound::Control,
        },
        ReceiverEvent::Failed(error) => Inbound::Failed(error),
        ReceiverEvent::EndOfStream => Inbound::EndOfStream,
        ReceiverEvent::IdleTimeout => Inbound::IdleTimeout,
    }
}

/// The receiver loop of one session over the codec `T`.
pub struct ReceiverLoop<T> {
    ended: bool,
    codec: PhantomData<T>,
}

impl<T: WebSocketIO> ReceiverLoop<T> {
    /// Whether the sequence of results has ended.
    pub closed spec fn ended(&self) -> bool {
        self.ended
    }

    /// A receiver loop at its start: running.
    pub(crate) fn new() -> (receiver: ReceiverLoop<T>)
        ensures
            !receiver.ended(),
    {
        ReceiverLoop { ended: false, codec: PhantomData }
    }

    /// Whether the sequence of results has ended.
    pub fn has_ended(&self) -> (ended: bool)
        ensures
            ended == self.ended(),
    {
        self.ended
    }

    /// Takes one event that the codec has seen and answers with what to do
    /// next, as [`Inbound::react`] says.
    pub fn settle(&mut self, signal: Inbound<T::Output>) -> (step: ReceiverStep<T::Output>)
        ensures
            final(self).ended() == signal.react(old(self).ended()).ended,
            step == signal.react(old(self).ended()).step,
    {
        if self.ended {
            return ReceiverStep { action: ReceiverAction::End, incident: None };
        }
        match signal {
            Inbound::Data(Some(output)) => ReceiverStep {
                action: ReceiverAction::Yield(output),
                incident: None,
            },
            Inbound::Data(None) => ReceiverStep {
                action: ReceiverAction::Continue,
                incident: None,
            },
            Inbound::Control => ReceiverStep { action: ReceiverAction::Continue, incident: None },
            Inbound::Close => {
                self.ended = true;
                ReceiverStep { action: ReceiverAction::End, incident: None }
            },
            Inbound::Failed(error) => {
                self.ended = true;
                ReceiverStep {
                    action: ReceiverAction::End,
                    incident: Some(error.classify_receive()),
                }
            },
            Inbound::EndOfStream => {
                self.ended = true;
                ReceiverStep { action: ReceiverAction::End, incident: None }
            },
            Inbound::IdleTimeout => {
                self.ended = true;
                ReceiverStep { action: ReceiverAction::End, incident: Some(Incident::IdleTimeout) }
            },
        }
    }

    /// Takes one event and answers with what to do next.
    ///
    /// A loop that has ended answers `End` and leaves the frame alone. A
    /// running loop lets the codec see the frame, if it holds data, and answers
    /// as [`Inbound::react`] says.
    pub fn step(&mut self, event: ReceiverEvent) -> (step: ReceiverStep<T::Output>)
        ensures
            old(self).ended() ==> final(self).ended() && step.action is End && step.incident
                is None,
            !old(self).ended() ==> exists|signal: Inbound<T::Output>|
                {
                    &&& #[trigger] reads::<T>(event, signal)
                    &&& final(self).ended() == signal.react(false).ended
                    &&& step == signal.react(false).step
                },
    {
        if self.ended {
            ReceiverStep { action: ReceiverAction::End, incident: None }
        } else {
            let signal = interpret::<T>(event);
            self.settle(signal)
        }
    }
}

} // verus!
