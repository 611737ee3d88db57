//! Control protocol between the BYOND bridge and the server, and the
//! server's answers to it.

use vstd::prelude::*;
use vstd::string::StringExecFns;

verus! {

/// A control request sent from the BYOND bridge to the Sada server.
#[derive(Debug)]
pub enum ControlRequest {
    /// Ask the server for its version.
    Version,
    /// Update push-to-talk state for a BYOND client.
    SetPtt {
        /// Client ckey.
        ckey: String,
        /// Whether push-to-talk is currently pressed.
        pressed: bool,
    },
}

/// A response returned by the Sada server control socket.
#[derive(Debug)]
pub enum ControlResponse {
    /// Successful command completion.
    Done,
    /// Server version response.
    Version {
        /// Server crate version.
        version: String,
    },
    /// Command failed.
    Error {
        /// Human-readable error message.
        message: String,
    },
}

/// What the server read from a control connection when it looked for the
/// next request.
#[derive(Debug)]
pub enum Received {
    /// A complete request.
    Request(ControlRequest),
    /// The client closed the connection before a new frame began.
    EndOfStream,
    /// The frame could not be read or decoded; the text describes why.
    Invalid(String),
}

/// Apply one control request.
///
/// A version request is answered with `version`; a push-to-talk update is
/// acknowledged.
pub fn handle_request(request: ControlRequest, version: &str) -> (response: ControlResponse)
    ensures
        match request {
            ControlRequest::Version => response matches ControlResponse::Version { version: v }
                && v@ == version@,
            ControlRequest::SetPtt { .. } => response is Done,
        },
{
    match request {
        ControlRequest::Version => ControlResponse::Version { version: version.to_owned() },
        ControlRequest::SetPtt { ckey: _, pressed: _ } => ControlResponse::Done,
    }
}

/// The prefix of the message that answers an unreadable request.
pub open spec fn invalid_request_prefix() -> Seq<char> {
    seq!['i', 'n', 'v', 'a', 'l', 'i', 'd', ' ', 'r', 'e', 'q', 'u', 'e', 's', 't', ':', ' ']
}

/// The server's reply to what it read from a control connection, or `None`
/// when the connection has ended and the server stops serving it.
pub fn reply(received: Received, version: &str) -> (response: Option<ControlResponse>)
    ensures
        match received {
            Received::Request(ControlRequest::Version) => response matches Some(
                ControlResponse::Version { version: v },
            ) && v@ == version@,
            Received::Request(ControlRequest::SetPtt { .. }) => response matches Some(
                ControlResponse::Done,
            ),
            Received::EndOfStream => response is None,
            Received::Invalid(why) => response matches Some(ControlResponse::Error { message: m })
                && m@ == invalid_request_prefix() + why@,
        },
{
    match received {
        Received::Request(request) => Some(handle_request(request, version)),
        Received::EndOfStream => None,
        Received::Invalid(why) => {
            let prefix = "invalid request: ";
            proof {
                reveal_strlit("invalid request: ");
            }
            let mut message = String::from_str(prefix);
            message.append(why.as_str());
            Some(ControlResponse::Error { message })
        },
    }
}

} // verus!
