//! Signaling messages exchanged with a browser client, and the decisions
//! the signaling endpoint makes on them.

use vstd::prelude::*;

verus! {

/// Message exchanged over the signaling WebSocket.
#[derive(Debug)]
pub enum SignalMessage {
    /// SDP offer sent by a WebRTC client.
    Offer {
        /// Session description payload.
        sdp: String,
    },
    /// SDP answer sent after accepting an offer.
    Answer {
        /// Session description payload.
        sdp: String,
    },
    /// Request to close the signaling session.
    Close,
}

} // verus!

verus! {

/// What arrived on the signaling WebSocket, once text frames are parsed.
#[derive(Debug)]
pub enum Inbound {
    /// The stream ended without a close frame.
    Ended,
    /// The client sent a close frame.
    CloseFrame,
    /// Reading from the socket failed.
    ReadFailed,
    /// A frame that is not text (binary, ping, pong).
    NotText,
    /// A text frame that is not a signaling message.
    Unparsable,
    /// A signaling message.
    Signal(SignalMessage),
}

/// What the endpoint does with an inbound frame.
#[derive(Debug)]
pub enum IncomingAction {
    /// Close the signaling session.
    Stop,
    /// Keep reading.
    Continue,
    /// Create a WebRTC session from this offer, answer it, then keep reading.
    StartSession { sdp: String },
}

/// Handle a single message from the client WebSocket; `has_sender` and
/// `has_receiver` tell whether this connection already runs a session.
///
/// A session is started only once: a second offer is ignored.
pub fn incoming_action(inbound: Inbound, has_sender: bool, has_receiver: bool) -> (action: IncomingAction)
    ensures
        match inbound {
            Inbound::Ended | Inbound::CloseFrame | Inbound::ReadFailed => action is Stop,
            Inbound::NotText | Inbound::Unparsable => action is Continue,
            Inbound::Signal(SignalMessage::Offer { sdp }) => if has_sender || has_receiver {
                action is Continue
            } else {
                action matches IncomingAction::StartSession { sdp: s } && s == sdp
            },
            Inbound::Signal(SignalMessage::Answer { .. }) => action is Continue,
            Inbound::Signal(SignalMessage::Close) => action is Stop,
        },
{
    match inbound {
        Inbound::Ended => IncomingAction::Stop,
        Inbound::CloseFrame => IncomingAction::Stop,
        Inbound::ReadFailed => IncomingAction::Stop,
        Inbound::NotText => IncomingAction::Continue,
        Inbound::Unparsable => IncomingAction::Continue,
        Inbound::Signal(SignalMessage::Offer { sdp }) => {
            if has_sender || has_receiver {
                IncomingAction::Continue
            } else {
                IncomingAction::StartSession { sdp }
            }
        },
        Inbound::Signal(SignalMessage::Answer { sdp: _ }) => IncomingAction::Continue,
        Inbound::Signal(SignalMessage::Close) => IncomingAction::Stop,
    }
}

/// What the endpoint does with a message the session wants sent.
#[derive(Debug)]
pub enum OutgoingAction {
    /// Send this text to the client.
    Send(String),
    /// The session is gone: close the signaling session.
    Stop,
}

/// Handle a single outgoing message to the client WebSocket.
pub fn outgoing_action(outbound: Option<String>) -> (action: OutgoingAction)
    ensures
        match outbound {
            Some(text) => action matches OutgoingAction::Send(t) && t == text,
            None => action is Stop,
        },
{
    match outbound {
        Some(text) => OutgoingAction::Send(text),
        None => OutgoingAction::Stop,
    }
}

} // verus!
