//! Wire frames as plain values.

use vstd::prelude::*;

verus! {

/// The close command of a `Close` frame: a status code and a reason.
#[derive(Debug, Clone, PartialEq, Eq)]
pub struct CloseFrame {
    pub code: u16,
    pub reason: String,
}

/// The header of a raw frame.
#[derive(Debug, Clone, PartialEq, Eq)]
pub struct FrameHeader {
    pub is_final: bool,
    pub rsv1: bool,
    pub rsv2: bool,
    pub rsv3: bool,
    pub opcode: u8,
    pub mask: Option<[u8; 4]>,
}

/// A raw frame: header and payload, below the level of messages.
#[derive(Debug, Clone, PartialEq, Eq)]
pub struct Frame {
    pub header: FrameHeader,
    pub payload: Vec<u8>,
}

/// One frame on the wire.
///
/// `Text` and `Binary` carry application data, `Ping` and `Pong` keep the
/// connection alive, `Close` ends it in an orderly way, and `Frame` is any
/// other framing.
#[derive(Debug, Clone, PartialEq, Eq)]
pub enum Message {
    Text(String),
    Binary(Vec<u8>),
    Ping(Vec<u8>),
    Pong(Vec<u8>),
    Close(Option<CloseFrame>),
    Frame(Frame),
}

/// What a frame is for, without its payload.
#[derive(Debug, Clone, Copy, PartialEq, Eq, Structural)]
pub enum FrameKind {
    Text,
    Binary,
    Ping,
    Pong,
    Close,
    Other,
}

/// The mathematical value of a [`CloseFrame`].
pub struct CloseFrameView {
    pub code: u16,
    pub reason: Seq<char>,
}

/// The mathematical value of a raw [`Frame`].
pub struct FrameView {
    pub header: FrameHeader,
    pub payload: Seq<u8>,
}

/// The mathematical value of a [`Message`].
pub enum MessageView {
    Text(Seq<char>),
    Binary(Seq<u8>),
    Ping(Seq<u8>),
    Pong(Seq<u8>),
    Close(Option<CloseFrameView>),
    Frame(FrameView),
}

impl View for CloseFrame {
    type V = CloseFrameView;

    open spec fn view(&self) -> CloseFrameView {
        CloseFrameView { code: self.code, reason: self.reason@ }
    }
}

impl View for Frame {
    type V = FrameView;

    open spec fn view(&self) -> FrameView {
        FrameView { header: self.header, payload: self.payload@ }
    }
}

impl View for Message {
    type V = MessageView;

    open spec fn view(&self) -> MessageView {
        match self {
            Message::Text(text) => MessageView::Text(text@),
            Message::Binary(data) => MessageView::Binary(data@),
            Message::Ping(data) => MessageView::Ping(data@),
            Message::Pong(data) => MessageView::Pong(data@),
            Message::Close(None) => MessageView::Close(None),
            Message::Close(Some(frame)) => MessageView::Close(Some(frame@)),
            Message::Frame(frame) => MessageView::Frame(frame@),
        }
    }
}

impl MessageView {
    /// What the frame is for.
    pub open spec fn kind(self) -> FrameKind {
        match self {
            MessageView::Text(_) => FrameKind::Text,
            MessageView::Binary(_) => FrameKind::Binary,
            MessageView::Ping(_) => FrameKind::Ping,
            MessageView::Pong(_) => FrameKind::Pong,
            MessageView::Close(_) => FrameKind::Close,
            MessageView::Frame(_) => FrameKind::Other,
        }
    }

    /// The keepalive frame that the sender emits: a ping without payload.
    pub open spec fn keepalive() -> MessageView {
        MessageView::Ping(Seq::empty())
    }
}

impl FrameKind {
    /// Whether a frame of this kind carries application data.
    pub open spec fn carries_data(self) -> bool {
        self == FrameKind::Text || self == FrameKind::Binary
    }

    /// Whether a frame of this kind carries application data.
    pub fn is_data(&self) -> (data: bool)
        ensures
            data == self.carries_data(),
    {
        match self {
            FrameKind::Text | FrameKind::Binary => true,
            _ => false,
        }
    }
}

impl Message {
    /// What the frame is for.
    pub fn kind(&self) -> (kind: FrameKind)
        ensures
            kind == self@.kind(),
    {
        match self {
            Message::Text(_) => FrameKind::Text,
            Message::Binary(_) => FrameKind::Binary,
            Message::Ping(_) => FrameKind::Ping,
            Message::Pong(_) => FrameKind::Pong,
            Message::Close(_) => FrameKind::Close,
            Message::Frame(_) => FrameKind::Other,
        }
    }

    /// The keepalive frame: a ping without payload.
    pub fn keepalive() -> (ping: Message)
        ensures
            ping@ == MessageView::keepalive(),
    {
        Message::Ping(Vec::new())
    }
}

} // verus!
