//! What str0m acknowledged: a written audio frame and an accepted answer.
//!
//! The values here have private fields, so the rest of the library cannot
//! make them up: they come only from the calls that str0m answered with
//! success.

use std::sync::Arc;
use std::time::Instant;
use str0m::change::{SdpAnswer, SdpApi, SdpPendingOffer};
use str0m::error::RtcError;
use str0m::format::PayloadParams;
use str0m::media::{MediaTime, Mid, Pt, Writer};
use crate::rtc::{writer_mid, writer_payload_type, writer_talkspurt};
use vstd::prelude::*;

verus! {

/// A frame that str0m queued for sending, with what it was handed.
#[derive(Debug)]
pub struct WriteReceipt {
    mid: Mid,
    params: PayloadParams,
    pt: Pt,
    start_of_talkspurt: bool,
    network_time: Instant,
    time: MediaTime,
    data: Arc<[u8]>,
}

impl WriteReceipt {
    /// The media line written to.
    pub closed spec fn mid(&self) -> Mid {
        self.mid
    }

    /// The codec parameters of the frame.
    pub closed spec fn params(&self) -> PayloadParams {
        self.params
    }

    /// The local payload type matching those parameters.
    pub closed spec fn pt(&self) -> Pt {
        self.pt
    }

    /// Whether the frame was marked as the start of a talk spurt.
    pub closed spec fn start_of_talkspurt(&self) -> bool {
        self.start_of_talkspurt
    }

    /// The wallclock time handed on.
    pub closed spec fn network_time(&self) -> Instant {
        self.network_time
    }

    /// The RTP media time handed on.
    pub closed spec fn time(&self) -> MediaTime {
        self.time
    }

    /// The frame's data.
    pub closed spec fn data(&self) -> Arc<[u8]> {
        self.data
    }
}

/// Calls `Writer::write`, queueing one frame on the writer's media line.
/// The writer must be the one for `mid`, marked with `start_of_talkspurt`,
/// and `pt` the payload type it matches `params` to. On success the receipt
/// records exactly these and the arguments handed to `write`; whether str0m
/// accepts the frame depends on the connection's state and is not claimed.
#[verifier::external_body]
pub(crate) fn writer_write(
    writer: Writer,
    mid: Mid,
    params: PayloadParams,
    start_of_talkspurt: bool,
    pt: Pt,
    wallclock: Instant,
    time: MediaTime,
    data: Arc<[u8]>,
) -> (written: Result<WriteReceipt, RtcError>)
    requires
        writer_mid(writer) == mid,
        writer_talkspurt(writer) == Some(start_of_talkspurt),
        writer_payload_type(writer, params) == Some(pt),
    ensures
        written matches Ok(r) ==> {
            &&& r.mid() == mid
            &&& r.params() == params
            &&& r.pt() == pt
            &&& r.start_of_talkspurt() == start_of_talkspurt
            &&& r.network_time() == wallclock
            &&& r.time() == time
            &&& r.data() == data
        },
{
    let receipt = WriteReceipt { mid, params, pt, start_of_talkspurt, network_time: wallclock, time, data: data.clone() };
    writer.write(pt, wallclock, time, data).map(|()| receipt)
}

/// str0m's acknowledgement that it accepted the peer's answer.
#[derive(Debug)]
pub struct AnswerAccepted {
    acknowledged: (),
}

/// Calls `SdpApi::accept_answer`, completing the negotiation started by
/// `pending`. Whether the answer is accepted depends on the connection's
/// state and is not claimed; success gives the acknowledgement.
#[verifier::external_body]
pub(crate) fn sdp_accept_answer(
    changes: SdpApi,
    pending: SdpPendingOffer,
    answer: SdpAnswer,
) -> Result<AnswerAccepted, RtcError> {
    changes.accept_answer(pending, answer).map(|()| AnswerAccepted { acknowledged: () })
}

} // verus!
