//! The sender loop: which frame goes out for which event.
//!
//! The loop owns the write half of a session. Its caller waits for the next
//! chunk of the outbound sequence or for the keepalive timer, whichever comes
//! first and the chunk first where both are ready, sends the frames that the
//! loop answers with, and reports how each send went.

use crate::codec::{encode, encodes, end_marker, marks_end, WebSocketIO};
use crate::error::{Incident, TransportError};
use crate::message::{Message, MessageView};
use std::marker::PhantomData;
use vstd::prelude::*;

verus! {

/// Seconds between two keepalive ticks while the sender loop runs.
pub const KEEPALIVE_SECS: u64 = 15;

/// What a frame of the sender is for.
#[derive(Debug, Clone, Copy, PartialEq, Eq, Structural)]
pub enum FrameRole {
    /// An encoded chunk of the outbound sequence.
    Data,
    /// A keepalive ping.
    Ping,
    /// The marker that follows the last chunk.
    EndMarker,
}

/// Where the sender loop stands.
#[derive(Debug, Clone, Copy, PartialEq, Eq, Structural)]
pub enum SenderPhase {
    /// Waiting for the next chunk or the next keepalive tick.
    Draining,
    /// A frame is on its way; its result is awaited.
    Transmitting(FrameRole),
    /// The write half is being closed; the result is awaited.
    Closing,
    /// The loop ran to its end.
    Finished,
    /// The loop was cancelled from outside.
    Aborted,
}

/// What the caller reports to the sender loop.
#[derive(Debug, Clone, PartialEq, Eq)]
pub enum SenderEvent {
    /// The outbound sequence yielded a chunk.
    Chunk(Vec<u8>),
    /// The outbound sequence is over.
    Exhausted,
    /// The keepalive timer fired and no chunk was ready.
    Tick,
    /// The frame that was handed out for sending went out.
    Sent,
    /// The frame that was handed out for sending did not go out.
    SendFailed(TransportError),
    /// The write half was closed.
    Closed,
    /// The write half could not be closed.
    CloseFailed(TransportError),
}

/// What the caller has to do next.
#[derive(Debug, Clone, PartialEq, Eq)]
pub enum SenderAction {
    /// Wait for the next chunk or keepalive tick.
    Poll,
    /// Send this frame and report the result.
    Transmit(Message),
    /// Close the write half and report the result.
    HalfClose,
    /// Nothing is left to do.
    Stop,
    /// The event was not awaited. Nothing changed; what was awaited still is.
    Pending,
}

/// A [`SenderAction`] without the frame.
#[derive(Debug, Clone, Copy, PartialEq, Eq, Structural)]
pub enum Duty {
    Poll,
    Transmit(FrameRole),
    HalfClose,
    Stop,
    Pending,
}

/// The answer of the sender loop to one event.
#[derive(Debug, Clone, PartialEq, Eq)]
pub struct SenderStep {
    /// What to do next.
    pub action: SenderAction,
    /// What went wrong, if anything did. It is for the record only.
    pub incident: Option<Incident>,
}

/// What the rules of the sender loop make of an event in a phase.
pub struct Reaction {
    pub next: SenderPhase,
    pub duty: Duty,
    pub incident: Option<Incident>,
}

impl SenderPhase {
    /// The phase stays and nothing is to be done: the answer to an event that
    /// the phase does not await.
    pub open spec fn unmoved(self) -> Reaction {
        Reaction { next: self, duty: Duty::Pending, incident: None }
    }

    /// The loop leaves for the half-close of the write half.
    pub open spec fn wind_down(incident: Option<Incident>) -> Reaction {
        Reaction { next: SenderPhase::Closing, duty: Duty::HalfClose, incident }
    }

    /// A frame of the given role goes out.
    pub open spec fn send(role: FrameRole) -> Reaction {
        Reaction {
            next: SenderPhase::Transmitting(role),
            duty: Duty::Transmit(role),
            incident: None,
        }
    }

    /// The rules of the sender loop.
    ///
    /// While draining, a chunk goes out as a data frame, a tick as a ping, and
    /// the end of the sequence as the end marker. A data frame or a ping that
    /// went out leads back to draining. One that did not ends the loop without
    /// an end marker. After the end marker, sent or not, and after any failed
    /// send, the write half is closed, and whatever comes of that, the loop is
    /// finished. A finished or aborted loop answers every event with `Stop`.
    pub open spec fn react(self, event: SenderEvent) -> Reaction {
        match self {
            SenderPhase::Draining => match event {
                SenderEvent::Chunk(_) => Self::send(FrameRole::Data),
                SenderEvent::Tick => Self::send(FrameRole::Ping),
                SenderEvent::Exhausted => Self::send(FrameRole::EndMarker),
                _ => self.unmoved(),
            },
            SenderPhase::Transmitting(role) => match event {
                SenderEvent::Sent => match role {
                    FrameRole::EndMarker => Self::wind_down(None),
                    _ => Reaction { next: SenderPhase::Draining, duty: Duty::Poll, incident: None },
                },
                SenderEvent::SendFailed(error) => match role {
                    FrameRole::Data => Self::wind_down(Some(error.send_incident())),
                    FrameRole::Ping => Self::wind_down(Some(Incident::PingFailed)),
                    FrameRole::EndMarker => Self::wind_down(None),
                },
                _ => self.unmoved(),
            },
            SenderPhase::Closing => match event {
                SenderEvent::Closed => Reaction {
                    next: SenderPhase::Finished,
                    duty: Duty::Stop,
                    incident: None,
                },
                SenderEvent::CloseFailed(_) => Reaction {
                    next: SenderPhase::Finished,
                    duty: Duty::Stop,
                    incident: Some(Incident::CloseFailed),
                },
                _ => self.unmoved(),
            },
            SenderPhase::Finished => Reaction { next: self, duty: Duty::Stop, incident: None },
            SenderPhase::Aborted => Reaction { next: self, duty: Duty::Stop, incident: None },
        }
    }

    /// The phase after cancellation from outside: a finished loop stays
    /// finished, any other is aborted.
    pub open spec fn cancelled(self) -> SenderPhase {
        if self == SenderPhase::Finished {
            SenderPhase::Finished
        } else {
            SenderPhase::Aborted
        }
    }

    /// Whether the loop is over: finished or aborted.
    pub open spec fn over(self) -> bool {
        self == SenderPhase::Finished || self == SenderPhase::Aborted
    }
}

/// Whether `action` is what `duty` asks for in answer to `event`, with the
/// frame that the codec `T` makes where a frame goes out: an encoding of the
/// event's chunk for a data frame, a ping without payload for a keepalive, an
/// end marker of the codec for the end of the sequence.
pub open spec fn carries_out<T: WebSocketIO>(
    action: SenderAction,
    duty: Duty,
    event: SenderEvent,
) -> bool {
    match duty {
        Duty::Poll => action is Poll,
        Duty::HalfClose => action is HalfClose,
        Duty::Stop => action is Stop,
        Duty::Pending => action is Pending,
        Duty::Transmit(FrameRole::Data) => {
            &&& action matches SenderAction::Transmit(msg)
            &&& event matches SenderEvent::Chunk(data)
            &&& encodes::<T>(data, msg)
        },
        Duty::Transmit(FrameRole::Ping) => {
            &&& action matches SenderAction::Transmit(msg)
            &&& msg@ == MessageView::keepalive()
        },
        Duty::Transmit(FrameRole::EndMarker) => {
            &&& action matches SenderAction::Transmit(msg)
            &&& marks_end::<T>(msg)
        },
    }
}

/// The sender loop of one session over the codec `T`.
pub struct SenderLoop<T> {
    phase: SenderPhase,
    codec: PhantomData<T>,
}

impl<T: WebSocketIO> SenderLoop<T> {
    /// Where the loop stands.
    pub closed spec fn phase(&self) -> SenderPhase {
        self.phase
    }

    /// A sender loop at its start: draining.
    pub(crate) fn new() -> (sender: SenderLoop<T>)
        ensures
            sender.phase() == SenderPhase::Draining,
    {
        SenderLoop { phase: SenderPhase::Draining, codec: PhantomData }
    }

    /// Where the loop stands.
    pub fn current_phase(&self) -> (phase: SenderPhase)
        ensures
            phase == self.phase(),
    {
        self.phase
    }

    /// Whether the loop is over: finished or aborted.
    pub fn is_over(&self) -> (over: bool)
        ensures
            over == self.phase().over(),
    {
        match self.phase {
            SenderPhase::Finished | SenderPhase::Aborted => true,
            _ => false,
        }
    }

    /// Takes one event and answers with what to do next.
    ///
    /// The phase moves, and the incident and the kind of action are, as
    /// [`SenderPhase::react`] says. Where a frame goes out, it is the one that
    /// the codec makes for the event.
    pub fn step(&mut self, event: SenderEvent) -> (step: SenderStep)
        ensures
            final(self).phase() == old(self).phase().react(event).next,
            step.incident == old(self).phase().react(event).incident,
            carries_out::<T>(step.action, old(self).phase().react(event).duty, event),
    {
        match self.phase {
            SenderPhase::Draining => match event {
                SenderEvent::Chunk(data) => {
                    self.phase = SenderPhase::Transmitting(FrameRole::Data);
                    SenderStep { action: SenderAction::Transmit(encode::<T>(data)), incident: None }
                },
                SenderEvent::Tick => {
                    self.phase = SenderPhase::Transmitting(FrameRole::Ping);
                    SenderStep {
                        action: SenderAction::Transmit(Message::keepalive()),
                        incident: None,
                    }
                },
                SenderEvent::Exhausted => {
                    self.phase = SenderPhase::Transmitting(FrameRole::EndMarker);
                    SenderStep { action: SenderAction::Transmit(end_marker::<T>()), incident: None }
                },
                _ => SenderStep { action: SenderAction::Pending, incident: None },
            },
            SenderPhase::Transmitting(role) => match event {
                SenderEvent::Sent => match role {
                    FrameRole::EndMarker => {
                        self.phase = SenderPhase::Closing;
                        SenderStep { action: SenderAction::HalfClose, incident: None }
                    },
                    _ => {
                        self.phase = SenderPhase::Draining;
                        SenderStep { action: SenderAction::Poll, incident: None }
                    },
                },
                SenderEvent::SendFailed(error) => {
                    let incident = match role {
                        FrameRole::Data => Some(error.classify_send()),
                        FrameRole::Ping => Some(Incident::PingFailed),
                        FrameRole::EndMarker => None,
                    };
                    self.phase = SenderPhase::Closing;
                    SenderStep { action: SenderAction::HalfClose, incident }
                },
                _ => SenderStep { action: SenderAction::Pending, incident: None },
            },
            SenderPhase::Closing => match event {
                SenderEvent::Closed => {
                    self.phase = SenderPhase::Finished;
                    SenderStep { action: SenderAction::Stop, incident: None }
                },
                SenderEvent::CloseFailed(_) => {
                    self.phase = SenderPhase::Finished;
                    SenderStep { action: SenderAction::Stop, incident: Some(Incident::CloseFailed) }
                },
                _ => SenderStep { action: SenderAction::Pending, incident: None },
            },
            SenderPhase::Finished => SenderStep { action: SenderAction::Stop, incident: None },
            SenderPhase::Aborted => SenderStep { action: SenderAction::Stop, incident: None },
        }
    }

    /// Cancels the loop from outside: the consumer of the results is gone.
    /// An aborted loop hands out no frame any more.
    pub fn abort(&mut self)
        ensures
            final(self).phase() == old(self).phase().cancelled(),
    {
        match self.phase {
            SenderPhase::Finished => {},
            _ => {
                self.phase = SenderPhase::Aborted;
            },
        }
    }
}

} // verus!
