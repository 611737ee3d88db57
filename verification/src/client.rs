//! Decisions of the BYOND bridge's control client: which request an
//! exported call makes, and what it answers once the exchange with the
//! server is over.

use crate::protocol::{ControlRequest, ControlResponse};
use vstd::prelude::*;
use vstd::string::StringExecFns;

verus! {

/// How the request/response exchange over the control socket went.
#[derive(Debug)]
pub enum Exchange {
    /// No connection was established (or the last one failed).
    NotConnected,
    /// The server answered.
    Answered(ControlResponse),
    /// Writing the request or reading the response failed; the text says why.
    Failed(String),
}

/// What an exported call returns, and whether the connection is kept.
#[derive(Debug)]
pub struct RequestOutcome {
    /// Response handed back to BYOND.
    pub response: ControlResponse,
    /// Whether the connection stays usable for the next request.
    pub keep_connection: bool,
}

/// Message given when a request is made before `init`.
pub open spec fn not_initialized_message() -> Seq<char> {
    seq![
        's', 'a', 'd', 'a', ' ', 'c', 'l', 'i', 'e', 'n', 't', ' ', 'i', 's', ' ', 'n', 'o', 't', ' ',
        'i', 'n', 'i', 't', 'i', 'a', 'l', 'i', 'z', 'e', 'd',
    ]
}

/// Finish one request: the server's answer is returned as is; a failed
/// exchange is reported and drops the connection.
pub fn finish_request(exchange: Exchange) -> (outcome: RequestOutcome)
    ensures
        match exchange {
            Exchange::NotConnected => !outcome.keep_connection && (outcome.response matches ControlResponse::Error { message: m } && m@ == not_initialized_message()),
            Exchange::Answered(response) => outcome.keep_connection && outcome.response == response,
            Exchange::Failed(why) => !outcome.keep_connection && (outcome.response matches ControlResponse::Error { message: m } && m@ == why@),
        },
{
    match exchange {
        Exchange::NotConnected => {
            let text = "sada client is not initialized";
            proof {
                reveal_strlit("sada client is not initialized");
            }
            RequestOutcome {
                response: ControlResponse::Error { message: String::from_str(text) },
                keep_connection: false,
            }
        },
        Exchange::Answered(response) => RequestOutcome { response, keep_connection: true },
        Exchange::Failed(why) => RequestOutcome {
            response: ControlResponse::Error { message: why },
            keep_connection: false,
        },
    }
}

/// The response to `init` when connecting to the control socket at `path`
/// failed for the reason `reason`.
pub fn connect_failed(path: &str, reason: &str) -> (response: ControlResponse)
    ensures
        response matches ControlResponse::Error { message: m } && m@ == seq![
            'f', 'a', 'i', 'l', 'e', 'd', ' ', 't', 'o', ' ', 'c', 'o', 'n', 'n', 'e', 'c', 't', ' ', 't', 'o', ' ',
        ] + path@ + seq![':', ' '] + reason@,
{
    let head = "failed to connect to ";
    let sep = ": ";
    proof {
        reveal_strlit("failed to connect to ");
        reveal_strlit(": ");
    }
    let mut message = String::from_str(head);
    message.append(path);
    message.append(sep);
    message.append(reason);
    ControlResponse::Error { message }
}

/// The request `init` makes once connected: ask for the server version.
pub fn version_request() -> (request: ControlRequest)
    ensures
        request is Version,
{
    ControlRequest::Version
}

/// Send a push-to-talk state update.
pub fn set_ptt(ckey: String, pressed: bool) -> (request: ControlRequest)
    ensures
        request matches ControlRequest::SetPtt { ckey: c, pressed: p } && c == ckey && p == pressed,
{
    ControlRequest::SetPtt { ckey, pressed }
}

/// The push-to-talk request for the raw BYOND arguments: `pressed` is
/// `"1"` when the key is down.
pub fn ptt_request(ckey: &str, pressed: &str) -> (request: ControlRequest)
    ensures
        request matches ControlRequest::SetPtt { ckey: c, pressed: p } && c@ == ckey@ && p == (
        pressed@ == seq!['1']),
{
    let one = "1";
    proof {
        reveal_strlit("1");
        assert(one@ =~= seq!['1']);
    }
    set_ptt(ckey.to_owned(), crate::text::text_is(pressed, one))
}

} // verus!
