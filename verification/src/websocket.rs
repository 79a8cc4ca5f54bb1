//! How a dashboard's WebSocket session reacts to what it receives, both from
//! the browser and from the shop's update channel. Sending and closing are
//! the caller's part.

use vstd::prelude::*;

verus! {

/// What arrived on the socket from the browser.
pub enum ClientFrame {
    Ping(Vec<u8>),
    Pong,
    Text,
    Binary,
    Close,
    /// A protocol error on the stream.
    Failed,
    /// Any other frame (continuations, no-ops).
    Other,
}

/// What the session does in answer.
pub enum SessionAction {
    /// Answer a ping with a pong that carries the same payload.
    Pong(Vec<u8>),
    /// Close the session.
    Stop,
    /// Nothing.
    Ignore,
}

/// The session answers pings, closes on a close frame or a stream error, and
/// ignores everything else: dashboards only listen.
pub fn react_to_frame(frame: ClientFrame) -> (a: SessionAction)
    ensures
        match frame {
            ClientFrame::Ping(payload) => a == SessionAction::Pong(payload),
            ClientFrame::Close | ClientFrame::Failed => a == SessionAction::Stop,
            _ => a == SessionAction::Ignore,
        },
{
    match frame {
        ClientFrame::Ping(payload) => SessionAction::Pong(payload),
        ClientFrame::Close => SessionAction::Stop,
        ClientFrame::Failed => SessionAction::Stop,
        _ => SessionAction::Ignore,
    }
}

/// What the session's relay from the update channel received.
pub enum ChannelEvent {
    /// An update message for the dashboard.
    Message(String),
    /// The channel failed (closed, or the session fell behind).
    Failed,
}

/// What the relay does next.
pub enum RelayAction {
    /// Forward the message to the session and keep relaying.
    Forward(String),
    /// Stop relaying.
    Stop,
}

/// Every update is forwarded; the first failure of the channel ends the relay.
pub fn relay_step(event: ChannelEvent) -> (a: RelayAction)
    ensures
        match event {
            ChannelEvent::Message(m) => a == RelayAction::Forward(m),
            ChannelEvent::Failed => a == RelayAction::Stop,
        },
{
    match event {
        ChannelEvent::Message(m) => RelayAction::Forward(m),
        ChannelEvent::Failed => RelayAction::Stop,
    }
}

} // verus!
