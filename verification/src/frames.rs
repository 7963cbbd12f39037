//! How a client reads the frames of a WebSocket connection: which frames
//! carry messages, which end the connection, and which are protocol traffic.

use vstd::prelude::*;

verus! {

/// The kinds of things a WebSocket connection hands the client.
#[derive(Debug, Clone, Copy, PartialEq, Eq, Structural)]
pub enum FrameKind {
    /// A text message.
    Text,
    /// A binary message.
    Binary,
    /// A close frame.
    Close,
    /// A ping.
    Ping,
    /// A pong.
    Pong,
    /// A raw frame.
    Frame,
    /// The connection has no more frames.
    Ended,
    /// The connection reported an error.
    SocketError,
}

/// What the client does with a frame.
#[derive(Debug, Clone, Copy, PartialEq, Eq, Structural)]
pub enum FrameAction {
    /// Hand the text message to the caller.
    Deliver,
    /// The connection is over; report that no message is left.
    Closed,
    /// Fail: the server sent binary data where text was expected.
    FailBinary,
    /// Fail with the connection's error.
    FailSocket,
    /// Answer with an empty pong, then read on.
    ReplyPong,
    /// Read on.
    Skip,
}

/// The action for a frame. Pings are answered where the client holds the
/// sending side of the connection (`replies_to_ping`); otherwise the
/// connection answers them itself and they are skipped.
pub open spec fn frame_action(f: FrameKind, replies_to_ping: bool) -> FrameAction {
    match f {
        FrameKind::Text => FrameAction::Deliver,
        FrameKind::Binary => FrameAction::FailBinary,
        FrameKind::Close => FrameAction::Closed,
        FrameKind::Ended => FrameAction::Closed,
        FrameKind::SocketError => FrameAction::FailSocket,
        FrameKind::Ping => if replies_to_ping { FrameAction::ReplyPong } else { FrameAction::Skip },
        FrameKind::Pong => FrameAction::Skip,
        FrameKind::Frame => FrameAction::Skip,
    }
}

/// Decides what to do with a frame.
pub fn on_frame(f: FrameKind, replies_to_ping: bool) -> (a: FrameAction)
    ensures
        a == frame_action(f, replies_to_ping),
{
    match f {
        FrameKind::Text => FrameAction::Deliver,
        FrameKind::Binary => FrameAction::FailBinary,
        FrameKind::Close => FrameAction::Closed,
        FrameKind::Ended => FrameAction::Closed,
        FrameKind::SocketError => FrameAction::FailSocket,
        FrameKind::Ping => if replies_to_ping { FrameAction::ReplyPong } else { FrameAction::Skip },
        FrameKind::Pong => FrameAction::Skip,
        FrameKind::Frame => FrameAction::Skip,
    }
}

/// Reading frames stops exactly at a text message, the end of the
/// connection, or a failure: every other frame is passed over.
pub proof fn law_reading_stops_only_at_messages_and_ends(f: FrameKind, replies_to_ping: bool)
    ensures
        (frame_action(f, replies_to_ping) is Skip || frame_action(f, replies_to_ping) is ReplyPong)
            <==> (f is Ping || f is Pong || f is Frame),
{
}

/// Each action answers one kind of frame: a text frame, and only a text
/// frame, is delivered; only a close frame or the end of the connection
/// closes; a binary frame and a socket error fail; only a ping is answered.
/// Whether pings are answered changes the action of no other frame.
pub proof fn law_action_per_frame(f: FrameKind, replies_to_ping: bool)
    ensures
        frame_action(f, replies_to_ping) == FrameAction::Deliver <==> f == FrameKind::Text,
        frame_action(f, replies_to_ping) == FrameAction::Closed <==> (f == FrameKind::Close || f
            == FrameKind::Ended),
        frame_action(f, replies_to_ping) == FrameAction::FailBinary <==> f == FrameKind::Binary,
        frame_action(f, replies_to_ping) == FrameAction::FailSocket <==> f == FrameKind::SocketError,
        frame_action(f, replies_to_ping) == FrameAction::ReplyPong <==> (f == FrameKind::Ping
            && replies_to_ping),
        f != FrameKind::Ping ==> frame_action(f, true) == frame_action(f, false),
{
}

} // verus!
