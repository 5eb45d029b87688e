//! Transport errors as plain values, and how serious each one is.

use vstd::prelude::*;

verus! {

/// The kind of an I/O error, as far as the transport tells kinds apart.
#[derive(Debug, Clone, Copy, PartialEq, Eq, Structural)]
pub enum IoErrorKind {
    /// The peer is gone and the pipe is broken.
    BrokenPipe,
    /// Any other kind.
    Other,
}

/// A violation of the framing protocol, as far as the transport tells them
/// apart.
#[derive(Debug, Clone, Copy, PartialEq, Eq, Structural)]
pub enum ProtocolFault {
    /// A frame was handed over for sending after the close frame had gone out.
    SendAfterClosing,
    /// The connection was reset without a closing handshake.
    ResetWithoutClosingHandshake,
    /// Any other violation.
    Other,
}

/// An error of the socket below the transport.
#[derive(Debug, Clone, Copy, PartialEq, Eq, Structural)]
pub enum TransportError {
    /// The connection was closed in an orderly way.
    ConnectionClosed,
    /// The connection had been closed before.
    AlreadyClosed,
    /// An input or output error.
    Io(IoErrorKind),
    /// A violation of the framing protocol.
    Protocol(ProtocolFault),
    /// Anything else: TLS, capacity, encoding, URL or HTTP errors.
    Other,
}

/// How serious an incident is.
#[derive(Debug, Clone, Copy, PartialEq, Eq, Structural)]
pub enum Severity {
    /// Ordinary network churn.
    Debug,
    /// Worth a look, but expected now and then.
    Warn,
    /// Not expected.
    Error,
}

/// Something that happened on the way and that the caller may want to record.
/// None of these is an error of the operation.
#[derive(Debug, Clone, Copy, PartialEq, Eq, Structural)]
pub enum Incident {
    /// A connection attempt failed.
    ConnectFailed,
    /// A data frame could not be sent because the connection is closed.
    SendClosed,
    /// A data frame could not be sent for another reason.
    SendFailed,
    /// A keepalive ping could not be sent.
    PingFailed,
    /// The write half could not be closed.
    CloseFailed,
    /// The connection was reset while reading.
    ReceiveReset,
    /// Reading failed for another reason.
    ReceiveFailed,
    /// No frame arrived within the idle timeout.
    IdleTimeout,
}

impl TransportError {
    /// Whether the error says no more than that the connection is closed:
    /// already closed, closed in an orderly way, a send after the close frame,
    /// or a broken pipe.
    pub open spec fn normal_close(self) -> bool {
        self == TransportError::AlreadyClosed || self == TransportError::ConnectionClosed || self
            == TransportError::Protocol(ProtocolFault::SendAfterClosing) || self
            == TransportError::Io(IoErrorKind::BrokenPipe)
    }

    /// Whether the error is a reset without a closing handshake.
    pub open spec fn abrupt_reset(self) -> bool {
        self == TransportError::Protocol(ProtocolFault::ResetWithoutClosingHandshake)
    }

    /// Whether the error says no more than that the connection is closed.
    pub fn is_normal_close(&self) -> (normal: bool)
        ensures
            normal == self.normal_close(),
    {
        match self {
            TransportError::AlreadyClosed => true,
            TransportError::ConnectionClosed => true,
            TransportError::Protocol(ProtocolFault::SendAfterClosing) => true,
            TransportError::Io(IoErrorKind::BrokenPipe) => true,
            _ => false,
        }
    }

    /// Whether the error is a reset without a closing handshake.
    pub fn is_abrupt_reset(&self) -> (reset: bool)
        ensures
            reset == self.abrupt_reset(),
    {
        match self {
            TransportError::Protocol(ProtocolFault::ResetWithoutClosingHandshake) => true,
            _ => false,
        }
    }

    /// The incident that a failed send of a data frame amounts to.
    pub open spec fn send_incident(self) -> Incident {
        if self.normal_close() {
            Incident::SendClosed
        } else {
            Incident::SendFailed
        }
    }

    /// The incident that a failed read amounts to.
    pub open spec fn receive_incident(self) -> Incident {
        if self.abrupt_reset() {
            Incident::ReceiveReset
        } else {
            Incident::ReceiveFailed
        }
    }

    /// Classifies a failed send of a data frame.
    pub fn classify_send(&self) -> (incident: Incident)
        ensures
            incident == self.send_incident(),
    {
        if self.is_normal_close() {
            Incident::SendClosed
        } else {
            Incident::SendFailed
        }
    }

    /// Classifies a failed read.
    pub fn classify_receive(&self) -> (incident: Incident)
        ensures
            incident == self.receive_incident(),
    {
        if self.is_abrupt_reset() {
            Incident::ReceiveReset
        } else {
            Incident::ReceiveFailed
        }
    }
}

impl Incident {
    /// How serious the incident is.
    pub open spec fn level(self) -> Severity {
        match self {
            Incident::ConnectFailed => Severity::Error,
            Incident::SendClosed => Severity::Debug,
            Incident::SendFailed => Severity::Error,
            Incident::PingFailed => Severity::Debug,
            Incident::CloseFailed => Severity::Debug,
            Incident::ReceiveReset => Severity::Debug,
            Incident::ReceiveFailed => Severity::Error,
            Incident::IdleTimeout => Severity::Warn,
        }
    }

    /// How serious the incident is.
    pub fn severity(&self) -> (severity: Severity)
        ensures
            severity == self.level(),
    {
        match self {
            Incident::ConnectFailed => Severity::Error,
            Incident::SendClosed => Severity::Debug,
            Incident::SendFailed => Severity::Error,
            Incident::PingFailed => Severity::Debug,
            Incident::CloseFailed => Severity::Debug,
            Incident::ReceiveReset => Severity::Debug,
            Incident::ReceiveFailed => Severity::Error,
            Incident::IdleTimeout => Severity::Warn,
        }
    }
}

} // verus!
