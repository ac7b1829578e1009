//! Frames and send failures, as far as the client looks at them.

use vstd::prelude::*;

verus! {

/// Seconds between two keepalive pings on one connection.
pub const KEEPALIVE_INTERVAL: u64 = 30;

/// Why a frame could not be sent.
#[derive(Clone, Copy, Debug, PartialEq, Eq, Structural)]
pub enum SendFailure {
    /// The connection had been closed before the send.
    AlreadyClosed,
    /// The closing handshake has completed.
    ConnectionClosed,
    /// Any other failure of the transport.
    Transport,
}

impl SendFailure {
    /// Whether the failure is worth a diagnostic entry: a send on a closed
    /// connection is an ordinary wind-down, anything else is not.
    pub open spec fn is_unexpected(self) -> bool {
        self == SendFailure::Transport
    }

    pub fn unexpected(&self) -> (b: bool)
        ensures
            b == self.is_unexpected(),
    {
        match self {
            SendFailure::Transport => true,
            _ => false,
        }
    }
}

/// One unit of the WebSocket protocol.
#[derive(Debug, PartialEq, Eq)]
pub enum Frame {
    Text(String),
    Binary(Vec<u8>),
    Ping(Vec<u8>),
    Pong(Vec<u8>),
    Close,
}

/// A frame as a mathematical value.
pub enum FrameView {
    Text(Seq<char>),
    Binary(Seq<u8>),
    Ping(Seq<u8>),
    Pong(Seq<u8>),
    Close,
}

impl View for Frame {
    type V = FrameView;

    open spec fn view(&self) -> FrameView {
        match self {
            Frame::Text(text) => FrameView::Text(text@),
            Frame::Binary(bytes) => FrameView::Binary(bytes@),
            Frame::Ping(bytes) => FrameView::Ping(bytes@),
            Frame::Pong(bytes) => FrameView::Pong(bytes@),
            Frame::Close => FrameView::Close,
        }
    }
}

impl FrameView {
    /// The ping of the keepalive: a ping frame without payload.
    pub open spec fn keepalive_ping() -> FrameView {
        FrameView::Ping(Seq::empty())
    }
}

impl Frame {
    /// The ping of the keepalive: a ping frame without payload.
    pub fn keepalive_ping() -> (frame: Frame)
        ensures
            frame@ == FrameView::keepalive_ping(),
    {
        Frame::Ping(Vec::new())
    }
}

} // verus!
