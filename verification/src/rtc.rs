//! The WebRTC engine (str0m) as the session logic uses it: building the
//! engine and answering the peer's offer, handling its events, writing a
//! forwarded audio frame, creating an offer for more audio slots, and
//! accepting the peer's answer.

use std::sync::Arc;
use std::time::Instant;
use str0m::change::{SdpAnswer, SdpApi, SdpOffer, SdpPendingOffer};
use str0m::error::{RtcError, SdpError};
use str0m::format::PayloadParams;
use str0m::bwe::BweKind;
use str0m::format::CodecExtra;
use str0m::rtp::rtcp::SenderInfo;
use str0m::rtp::{ExtensionValues, SeqNo};
use str0m::channel::{ChannelData, ChannelId};
use str0m::media::{
    AppSpecificFeedback, Direction, KeyframeRequest, MediaAdded, MediaChanged, MediaData, MediaKind, MediaTime, Mid, Pt,
    Rid, SenderFeedback, Simulcast, Writer,
};
use str0m::rtp::{RawPacket, RtpPacket, StreamPaused};
use str0m::stats::{MediaEgressStats, MediaIngressStats, PeerStats};
use str0m::{Candidate, Event, IceConnectionState, Rtc, RtcConfig};
use crate::media::{logs_frame, reports_dump_error, AudioSink, FrameNotice};
use crate::session::{slots_to_request, EventStep, ForwardRoute, PendingNegotiation, SessionEvent, SessionId, SessionMedia};
use crate::transmit::{sdp_accept_answer, writer_write, AnswerAccepted, WriteReceipt};
use vstd::prelude::*;

verus! {

/// `str0m::Rtc`, the state of one WebRTC peer connection.
#[verifier::external_type_specification]
#[verifier::external_body]
pub struct ExRtc(Rtc);

/// `str0m::media::Mid`, the identifier of a media line.
#[verifier::external_type_specification]
#[verifier::external_body]
pub struct ExMid(Mid);

/// `str0m::media::MediaKind`, whose variants (audio, video) the library names.
#[verifier::external_type_specification]
pub struct ExMediaKind(MediaKind);

/// `str0m::media::Direction`, whose variants the library names.
#[verifier::external_type_specification]
pub struct ExDirection(Direction);

/// `str0m::media::Writer`, a writer of media for one media line.
#[verifier::external_type_specification]
#[verifier::external_body]
pub struct ExWriter<'a>(Writer<'a>);

/// `str0m::media::Pt`, a payload type.
#[verifier::external_type_specification]
#[verifier::external_body]
pub struct ExPt(Pt);

/// `str0m::format::PayloadParams`, codec parameters of a payload type.
#[verifier::external_type_specification]
#[verifier::external_body]
pub struct ExPayloadParams(PayloadParams);

/// `str0m::media::MediaTime`, an RTP media timestamp.
#[verifier::external_type_specification]
#[verifier::external_body]
pub struct ExMediaTime(MediaTime);

/// `str0m::media::Simulcast`, a simulcast configuration.
#[verifier::external_type_specification]
#[verifier::external_body]
pub struct ExSimulcast(Simulcast);

/// `str0m::error::RtcError`.
#[verifier::external_type_specification]
#[verifier::external_body]
pub struct ExRtcError(RtcError);

/// `str0m::error::SdpError`.
#[verifier::external_type_specification]
#[verifier::external_body]
pub struct ExSdpError(SdpError);

/// `str0m::change::SdpApi`, a batch of session changes.
#[verifier::external_type_specification]
#[verifier::external_body]
pub struct ExSdpApi<'a>(SdpApi<'a>);

/// `str0m::change::SdpOffer`.
#[verifier::external_type_specification]
#[verifier::external_body]
pub struct ExSdpOffer(SdpOffer);

/// `str0m::change::SdpAnswer`.
#[verifier::external_type_specification]
#[verifier::external_body]
pub struct ExSdpAnswer(SdpAnswer);

/// `str0m::change::SdpPendingOffer`, the handle that accepts the answer to an offer.
#[verifier::external_type_specification]
#[verifier::external_body]
pub struct ExSdpPendingOffer(SdpPendingOffer);

/// `std::time::Instant`.
#[verifier::external_type_specification]
#[verifier::external_body]
pub struct ExInstant(Instant);

/// `str0m::Event`, something that happened on the connection, whose
/// variants the library tells apart.
#[verifier::external_type_specification]
pub struct ExEvent(Event);

/// `str0m::media::MediaAdded`, whose fields the library reads.
#[verifier::external_type_specification]
pub struct ExMediaAdded(MediaAdded);

/// `str0m::media::MediaData`, a frame received from the peer, whose fields
/// the library reads.
#[verifier::external_type_specification]
pub struct ExMediaData(MediaData);

/// `str0m::IceConnectionState`, whose variants the library names.
#[verifier::external_type_specification]
pub struct ExIceConnectionState(IceConnectionState);

/// `str0m::media::SenderFeedback`.
#[verifier::external_type_specification]
#[verifier::external_body]
pub struct ExSenderFeedback(SenderFeedback);

/// `str0m::rtp::StreamPaused`.
#[verifier::external_type_specification]
#[verifier::external_body]
pub struct ExStreamPaused(StreamPaused);

/// `str0m::media::MediaChanged`.
#[verifier::external_type_specification]
#[verifier::external_body]
pub struct ExMediaChanged(MediaChanged);

/// `str0m::channel::ChannelId`.
#[verifier::external_type_specification]
#[verifier::external_body]
pub struct ExChannelId(ChannelId);

/// `str0m::channel::ChannelData`.
#[verifier::external_type_specification]
#[verifier::external_body]
pub struct ExChannelData(ChannelData);

/// `str0m::stats::PeerStats`.
#[verifier::external_type_specification]
#[verifier::external_body]
pub struct ExPeerStats(PeerStats);

/// `str0m::stats::MediaIngressStats`.
#[verifier::external_type_specification]
#[verifier::external_body]
pub struct ExMediaIngressStats(MediaIngressStats);

/// `str0m::stats::MediaEgressStats`.
#[verifier::external_type_specification]
#[verifier::external_body]
pub struct ExMediaEgressStats(MediaEgressStats);

/// `str0m::bwe::BweKind`.
#[verifier::external_type_specification]
#[verifier::external_body]
pub struct ExBweKind(BweKind);

/// `str0m::media::KeyframeRequest`.
#[verifier::external_type_specification]
#[verifier::external_body]
pub struct ExKeyframeRequest(KeyframeRequest);

/// `str0m::rtp::RtpPacket`.
#[verifier::external_type_specification]
#[verifier::external_body]
pub struct ExRtpPacket(RtpPacket);

/// `str0m::media::AppSpecificFeedback`.
#[verifier::external_type_specification]
#[verifier::external_body]
pub struct ExAppSpecificFeedback(AppSpecificFeedback);

/// `str0m::rtp::RawPacket`.
#[verifier::external_type_specification]
#[verifier::external_body]
pub struct ExRawPacket(RawPacket);

/// `str0m::media::Rid`, a simulcast layer identifier.
#[verifier::external_type_specification]
#[verifier::external_body]
pub struct ExRid(Rid);

/// `str0m::rtp::SeqNo`, an RTP sequence number.
#[verifier::external_type_specification]
#[verifier::external_body]
pub struct ExSeqNo(SeqNo);

/// `str0m::media::ExtensionValues`, RTP header extension values.
#[verifier::external_type_specification]
#[verifier::external_body]
pub struct ExExtensionValues(ExtensionValues);

/// `str0m::format::CodecExtra`, codec-specific frame information.
#[verifier::external_type_specification]
#[verifier::external_body]
pub struct ExCodecExtra(CodecExtra);

/// `str0m::rtp::rtcp::SenderInfo`, a sender report's information.
#[verifier::external_type_specification]
#[verifier::external_body]
pub struct ExSenderInfo(SenderInfo);

/// `str0m::RtcConfig`, the configuration an `Rtc` is built from.
#[verifier::external_type_specification]
#[verifier::external_body]
pub struct ExRtcConfig(RtcConfig);

/// `str0m::Candidate`, an ICE candidate.
#[verifier::external_type_specification]
#[verifier::external_body]
pub struct ExCandidate(Candidate);

/// Whether an `Rtc` runs in RTP mode, where media is written packet by
/// packet instead of frame by frame. It is fixed when the `Rtc` is built.
pub uninterp spec fn rtc_rtp_mode(rtc: Rtc) -> bool;

/// Whether a configuration builds an `Rtc` in RTP mode.
pub uninterp spec fn config_rtp_mode(config: RtcConfig) -> bool;

/// A payload type of a codec configuration: whether its codec is Opus, and
/// whether RED (redundant audio) is folded onto it.
pub struct CodecEntry {
    pub opus: bool,
    pub red: bool,
}

/// The payload types of a configuration, in order.
pub uninterp spec fn config_codecs(config: RtcConfig) -> Seq<CodecEntry>;

/// The payload types an `Rtc` was built with, in order.
pub uninterp spec fn rtc_codecs(rtc: Rtc) -> Seq<CodecEntry>;

/// The entries of `codecs` that are not Opus, in order.
pub open spec fn without_opus(codecs: Seq<CodecEntry>) -> Seq<CodecEntry>
    decreases codecs.len(),
{
    if codecs.len() == 0 {
        codecs
    } else if codecs.last().opus {
        without_opus(codecs.drop_last())
    } else {
        without_opus(codecs.drop_last()).push(codecs.last())
    }
}

/// Calls `RtcConfig::new`, the default configuration, which is not in RTP
/// mode.
#[verifier::external_body]
fn rtc_config_new() -> (config: RtcConfig)
    ensures
        !config_rtp_mode(config),
{
    RtcConfig::new()
}

/// Calls `RtcConfig::clear_codecs`, which removes every payload type and
/// changes nothing else.
#[verifier::external_body]
fn rtc_config_clear_codecs(config: RtcConfig) -> (cleared: RtcConfig)
    ensures
        config_rtp_mode(cleared) == config_rtp_mode(config),
        config_codecs(cleared) == Seq::<CodecEntry>::empty(),
{
    config.clear_codecs()
}

/// Calls `RtcConfig::enable_opus`, which removes the Opus payload types and,
/// when `enabled`, appends one Opus payload type, with RED folded onto it
/// when `use_red`; nothing else changes.
#[verifier::external_body]
fn rtc_config_enable_opus(config: RtcConfig, enabled: bool, use_red: bool) -> (opus: RtcConfig)
    ensures
        config_rtp_mode(opus) == config_rtp_mode(config),
        config_codecs(opus) == if enabled {
            without_opus(config_codecs(config)).push(CodecEntry { opus: true, red: use_red })
        } else {
            without_opus(config_codecs(config))
        },
{
    config.enable_opus(enabled, use_red)
}

/// Calls `RtcConfig::build`; the `Rtc` runs in RTP mode exactly when the
/// configuration says so, and has its payload types. `build` panics when no
/// crypto provider is available, or when the provider fails to make a DTLS
/// certificate or to set up DTLS; none of that depends on the arguments, and
/// this crate's dependencies bring a provider that makes certificates.
#[verifier::external_body]
fn rtc_config_build(config: RtcConfig, start: Instant) -> (rtc: Rtc)
    ensures
        rtc_rtp_mode(rtc) == config_rtp_mode(config),
        rtc_codecs(rtc) == config_codecs(config),
{
    config.build(start)
}

/// Whether an `Rtc` is connected: ICE connected, DTLS established and the
/// SRTP contexts set up. A function of the `Rtc`'s state.
pub uninterp spec fn rtc_connected(rtc: Rtc) -> bool;

/// Calls `Rtc::is_connected`, which reads the connection state as
/// `rtc_connected` names it.
#[verifier::external_body]
fn rtc_is_connected(rtc: &Rtc) -> (connected: bool)
    ensures
        connected == rtc_connected(*rtc),
{
    rtc.is_connected()
}

/// Whether `Rtc::writer` gives a writer for `mid`: the `Rtc` is alive and
/// has a media line `mid`.
pub uninterp spec fn rtc_has_writer(rtc: Rtc, mid: Mid) -> bool;

/// The local payload type an `Rtc`'s codec configuration matches codec
/// parameters to, if any.
pub uninterp spec fn rtc_payload_type(rtc: Rtc, params: PayloadParams) -> Option<Pt>;

/// The media line a writer writes to.
pub uninterp spec fn writer_mid(writer: Writer) -> Mid;

/// The talk-spurt mark a writer puts on the next frame, if one was set.
pub uninterp spec fn writer_talkspurt(writer: Writer) -> Option<bool>;

/// The local payload type a writer matches codec parameters to, if any.
pub uninterp spec fn writer_payload_type(writer: Writer, params: PayloadParams) -> Option<Pt>;

/// Calls `Rtc::writer`, which panics in RTP mode: a writer for the media line
/// `mid` exactly when `rtc_has_writer` says so, with no talk-spurt mark and
/// matching payload types as the `Rtc`'s codec configuration does. The
/// `Rtc` stays in its mode.
#[verifier::external_body]
fn rtc_writer<'a>(rtc: &'a mut Rtc, mid: Mid) -> (writer: Option<Writer<'a>>)
    requires
        !rtc_rtp_mode(*old(rtc)),
    ensures
        rtc_rtp_mode(*final(rtc)) == rtc_rtp_mode(*old(rtc)),
        writer is Some <==> rtc_has_writer(*old(rtc), mid),
        writer matches Some(w) ==> writer_mid(w) == mid && writer_talkspurt(w) is None,
        writer matches Some(w) ==> forall|params: PayloadParams| #[trigger] writer_payload_type(w, params)
            == rtc_payload_type(*old(rtc), params),
{
    rtc.writer(mid)
}

/// Calls `Writer::match_params`: the local payload type matching `params`,
/// as `writer_payload_type` names it.
#[verifier::external_body]
fn writer_match_params(writer: &Writer, params: PayloadParams) -> (pt: Option<Pt>)
    ensures
        pt == writer_payload_type(*writer, params),
{
    writer.match_params(params)
}

/// Calls `Writer::start_of_talkspurt`, which sets the mark for the next
/// frame and changes nothing else.
#[verifier::external_body]
fn writer_start_of_talkspurt<'a>(writer: Writer<'a>, start: bool) -> (marked: Writer<'a>)
    ensures
        writer_mid(marked) == writer_mid(writer),
        writer_talkspurt(marked) == Some(start),
        forall|params: PayloadParams| #[trigger] writer_payload_type(marked, params)
            == writer_payload_type(writer, params),
{
    writer.start_of_talkspurt(start)
}

/// One change queued in a batch of session changes.
pub enum BatchChange {
    /// A media line added by `SdpApi::add_media`.
    Media { mid: Mid, kind: MediaKind, direction: Direction },
    /// Any other change, and whether it needs negotiating with the peer.
    Other { negotiates: bool },
}

impl BatchChange {
    /// Whether the change needs an offer-answer negotiation with the peer.
    pub open spec fn negotiates(self) -> bool {
        match self {
            BatchChange::Media { .. } => true,
            BatchChange::Other { negotiates } => negotiates,
        }
    }
}

/// Whether some change of `batch` needs negotiating with the peer.
pub open spec fn needs_negotiation(batch: Seq<BatchChange>) -> bool {
    exists|i: int| 0 <= i < batch.len() && #[trigger] batch[i].negotiates()
}

/// The changes a batch queues, in order.
pub uninterp spec fn sdp_batch(changes: SdpApi) -> Seq<BatchChange>;

/// The changes a pending offer carries, in order.
pub uninterp spec fn pending_batch(pending: SdpPendingOffer) -> Seq<BatchChange>;

/// Calls `Rtc::sdp_api`, starting a batch of session changes, which holds no
/// change. The `Rtc` stays in its mode.
#[verifier::external_body]
fn rtc_sdp_api<'a>(rtc: &'a mut Rtc) -> (changes: SdpApi<'a>)
    ensures
        sdp_batch(changes) == Seq::<BatchChange>::empty(),
        rtc_rtp_mode(*final(rtc)) == rtc_rtp_mode(*old(rtc)),
{
    rtc.sdp_api()
}

/// Calls `SdpApi::add_media`, which queues one media line of this kind and
/// direction under the fresh identifier it returns.
#[verifier::external_body]
fn sdp_add_media(
    changes: &mut SdpApi,
    kind: MediaKind,
    direction: Direction,
    stream_id: Option<String>,
    track_id: Option<String>,
    simulcast: Option<Simulcast>,
) -> (mid: Mid)
    ensures
        sdp_batch(*final(changes)) == sdp_batch(*old(changes)).push(BatchChange::Media { mid, kind, direction }),
{
    changes.add_media(kind, direction, stream_id, track_id, simulcast)
}

/// Calls `SdpApi::apply`: an offer and its pending handle exactly when some
/// queued change needs negotiating, else `None`. The pending handle carries
/// the batch's changes. Nothing is claimed of the offer itself.
#[verifier::external_body]
fn sdp_apply(changes: SdpApi) -> (offer: Option<(SdpOffer, SdpPendingOffer)>)
    ensures
        offer is Some <==> needs_negotiation(sdp_batch(changes)),
        offer matches Some(made) ==> pending_batch(made.1) == sdp_batch(changes),
{
    changes.apply()
}

/// The SDP text of an offer, as str0m writes it.
pub uninterp spec fn offer_text(offer: SdpOffer) -> Seq<char>;

/// Calls `SdpOffer::to_sdp_string`, the offer's text as `offer_text` names
/// it.
#[verifier::external_body]
fn sdp_offer_to_string(offer: &SdpOffer) -> (text: String)
    ensures
        text@ == offer_text(*offer),
{
    offer.to_sdp_string()
}

/// Whether str0m's SDP parser accepts `sdp` as an answer: a function of
/// the text alone, whose grammar is str0m's.
pub uninterp spec fn sdp_answer_parses(sdp: Seq<char>) -> bool;

/// Calls `SdpAnswer::from_sdp_string`, parsing the peer's answer. It
/// succeeds exactly on the texts that `sdp_answer_parses` names; the parsed
/// answer itself is not looked into.
#[verifier::external_body]
fn sdp_answer_from_string(sdp: &str) -> (answer: Result<SdpAnswer, SdpError>)
    ensures
        answer is Ok <==> sdp_answer_parses(sdp@),
{
    SdpAnswer::from_sdp_string(sdp)
}

/// Whether str0m's SDP parser accepts `sdp` as an offer: a function of the
/// text alone, whose grammar is str0m's.
pub uninterp spec fn sdp_offer_parses(sdp: Seq<char>) -> bool;

/// The offer str0m's SDP parser reads from `sdp`: a function of the text
/// alone.
pub uninterp spec fn parsed_offer(sdp: Seq<char>) -> SdpOffer;

/// Calls `SdpOffer::from_sdp_string`, parsing the peer's offer. It succeeds
/// exactly on the texts that `sdp_offer_parses` names, with the offer that
/// `parsed_offer` names.
#[verifier::external_body]
fn sdp_offer_from_string(sdp: &str) -> (offer: Result<SdpOffer, SdpError>)
    ensures
        offer is Ok <==> sdp_offer_parses(sdp@),
        offer matches Ok(o) ==> o == parsed_offer(sdp@),
{
    SdpOffer::from_sdp_string(sdp)
}

/// Whether an `Rtc`'s ICE agent takes `candidate` as a local candidate: a
/// function of the agent's state and the candidate.
pub uninterp spec fn candidate_accepted(rtc: Rtc, candidate: Candidate) -> bool;

/// Calls `Rtc::add_local_candidate`: the candidate as added, or `None` when
/// the ICE agent refuses it, as `candidate_accepted` names. The `Rtc` stays
/// in its mode.
#[verifier::external_body]
fn rtc_add_local_candidate<'a>(rtc: &'a mut Rtc, candidate: Candidate) -> (added: Option<&'a Candidate>)
    ensures
        rtc_rtp_mode(*final(rtc)) == rtc_rtp_mode(*old(rtc)),
        added is Some <==> candidate_accepted(*old(rtc), candidate),
{
    rtc.add_local_candidate(candidate)
}

/// Calls `SdpApi::accept_offer`, answering the peer's offer. Whether str0m
/// accepts it depends on the offer's content and the connection's state;
/// nothing is claimed of the result.
#[verifier::external_body]
fn sdp_accept_offer(changes: SdpApi, offer: SdpOffer) -> Result<SdpAnswer, RtcError> {
    changes.accept_offer(offer)
}

/// The SDP text of an answer, as str0m writes it.
pub uninterp spec fn answer_text(answer: SdpAnswer) -> Seq<char>;

/// Calls `SdpAnswer::to_sdp_string`, the answer's text as `answer_text`
/// names it.
#[verifier::external_body]
fn sdp_answer_to_string(answer: &SdpAnswer) -> (text: String)
    ensures
        text@ == answer_text(*answer),
{
    answer.to_sdp_string()
}

/// A str0m event, told apart into the variants the session decides on.
#[derive(Debug)]
pub enum RtcEvent {
    /// ICE and DTLS are established.
    Connected,
    /// ICE connectivity changed.
    IceConnectionStateChange(IceConnectionState),
    /// The peer added a media line.
    MediaAdded(MediaAdded),
    /// Media data arrived from the peer.
    MediaData(MediaData),
    /// Sender feedback for an incoming stream.
    SenderFeedback(SenderFeedback),
    /// An incoming stream paused.
    StreamPaused(StreamPaused),
    /// Any other event.
    Other(Event),
}

/// Whether a media line of this kind and direction carries audio to the peer.
pub open spec fn sends_audio(kind: MediaKind, direction: Direction) -> bool {
    kind == MediaKind::Audio && (direction == Direction::SendOnly || direction == Direction::SendRecv)
}

/// Audio frame forwarded between sessions.
#[derive(Debug)]
pub struct ForwardedAudio {
    /// Session that produced the frame.
    pub origin: SessionId,
    /// Codec payload parameters from the incoming frame.
    pub params: PayloadParams,
    /// RTP media timestamp.
    pub time: MediaTime,
    /// Wallclock time associated with the received frame.
    pub network_time: Instant,
    /// Audio frame data.
    pub data: Arc<[u8]>,
    /// Whether this frame starts a talk spurt.
    pub start_of_talkspurt: bool,
}

/// The frame that session `origin` forwards for media data it received.
pub open spec fn forwarded_from(origin: SessionId, data: MediaData) -> ForwardedAudio {
    ForwardedAudio {
        origin,
        params: data.params,
        time: data.time,
        network_time: data.network_time,
        data: data.data,
        start_of_talkspurt: data.audio_start_of_talk_spurt,
    }
}

impl ForwardedAudio {
    /// Build a forwarded audio frame from str0m media data received by
    /// session `origin`.
    pub fn new(origin: SessionId, data: MediaData) -> (frame: Self)
        ensures
            frame == forwarded_from(origin, data),
    {
        ForwardedAudio {
            origin,
            params: data.params,
            time: data.time,
            network_time: data.network_time,
            data: data.data,
            start_of_talkspurt: data.audio_start_of_talk_spurt,
        }
    }
}

impl Clone for ForwardedAudio {
    /// A copy of the frame, sharing its data.
    fn clone(&self) -> (copy: Self)
        ensures
            copy == *self,
    {
        ForwardedAudio {
            origin: self.origin,
            params: self.params,
            time: self.time,
            network_time: self.network_time,
            data: self.data.clone(),
            start_of_talkspurt: self.start_of_talkspurt,
        }
    }
}

/// How the session loop goes on after an event.
#[derive(Debug)]
pub enum EventAction {
    /// Keep polling.
    Continue,
    /// A frame arrived and was counted: forward `frame` to the room, report
    /// as `notice` says, then keep polling.
    Forward { frame: ForwardedAudio, notice: FrameNotice },
    /// End the session loop.
    Done,
}

/// What to report about the frame a sink just counted.
pub open spec fn frame_notice(sink: AudioSink) -> FrameNotice {
    FrameNotice { log_frame: logs_frame(sink.frames()), report_dump_error: reports_dump_error(sink.frames()) }
}

/// Handle a single event for session `own`: a sending audio line added by
/// the peer becomes a free slot, lost ICE connectivity ends the session, and
/// media data is counted in `sink` and forwarded to the room as a frame of
/// `own`.
pub fn handle_rtc_event(
    media: &mut SessionMedia<SdpPendingOffer, Mid>,
    sink: &mut AudioSink,
    own: SessionId,
    event: RtcEvent,
) -> (action: EventAction)
    requires
        old(media).wf(),
        old(media).slots().capacity() < usize::MAX,
        event matches RtcEvent::MediaData(d) ==> old(sink).frames() < u64::MAX && old(sink).bytes() + d.data@.len()
            <= u64::MAX,
    ensures
        final(media).wf(),
        final(media).pending() == old(media).pending(),
        final(media).slots().remote == old(media).slots().remote,
        !(event is MediaData) ==> *final(sink) == *old(sink),
        match event {
            RtcEvent::MediaAdded(added) => action is Continue && final(media).slots().available
                == if sends_audio(added.kind, added.direction) {
                old(media).slots().available.push(added.mid)
            } else {
                old(media).slots().available
            },
            RtcEvent::IceConnectionStateChange(state) => final(media).slots() == old(media).slots()
                && if state == IceConnectionState::Disconnected {
                action is Done
            } else {
                action is Continue
            },
            RtcEvent::MediaData(d) => {
                &&& final(media).slots() == old(media).slots()
                &&& final(sink).frames() == old(sink).frames() + 1
                &&& final(sink).bytes() == old(sink).bytes() + d.data@.len()
                &&& action == EventAction::Forward { frame: forwarded_from(own, d), notice: frame_notice(*final(sink)) }
            },
            _ => action is Continue && final(media).slots() == old(media).slots(),
        },
{
    let reduced = match event {
        RtcEvent::Connected => SessionEvent::Connected,
        RtcEvent::IceConnectionStateChange(state) => match state {
            IceConnectionState::Disconnected => SessionEvent::IceDisconnected,
            _ => SessionEvent::IceStateChanged,
        },
        RtcEvent::MediaAdded(added) => {
            let audio = match added.kind {
                MediaKind::Audio => true,
                _ => false,
            };
            let sending = match added.direction {
                Direction::SendOnly => true,
                Direction::SendRecv => true,
                _ => false,
            };
            SessionEvent::MediaAdded { mid: added.mid, audio, sending }
        },
        RtcEvent::MediaData(data) => {
            let notice = sink.handle_frame(data.data.len());
            return EventAction::Forward { frame: ForwardedAudio::new(own, data), notice };
        },
        RtcEvent::SenderFeedback(_) => SessionEvent::Quiet,
        RtcEvent::StreamPaused(_) => SessionEvent::Quiet,
        RtcEvent::Other(_) => SessionEvent::Other,
    };
    match media.handle_event(reduced) {
        EventStep::Done => EventAction::Done,
        _ => EventAction::Continue,
    }
}

/// Handle a single str0m event for session `own`, as [`handle_rtc_event`]
/// does once the event's variant is told apart.
pub fn handle_event(
    media: &mut SessionMedia<SdpPendingOffer, Mid>,
    sink: &mut AudioSink,
    own: SessionId,
    event: Event,
) -> (action: EventAction)
    requires
        old(media).wf(),
        old(media).slots().capacity() < usize::MAX,
        event matches Event::MediaData(d) ==> old(sink).frames() < u64::MAX && old(sink).bytes() + d.data@.len()
            <= u64::MAX,
    ensures
        final(media).wf(),
        final(media).pending() == old(media).pending(),
        final(media).slots().remote == old(media).slots().remote,
        !(event is MediaData) ==> *final(sink) == *old(sink),
        match event {
            Event::MediaAdded(added) => action is Continue && final(media).slots().available
                == if sends_audio(added.kind, added.direction) {
                old(media).slots().available.push(added.mid)
            } else {
                old(media).slots().available
            },
            Event::IceConnectionStateChange(state) => final(media).slots() == old(media).slots()
                && if state == IceConnectionState::Disconnected {
                action is Done
            } else {
                action is Continue
            },
            Event::MediaData(d) => {
                &&& final(media).slots() == old(media).slots()
                &&& final(sink).frames() == old(sink).frames() + 1
                &&& final(sink).bytes() == old(sink).bytes() + d.data@.len()
                &&& action == EventAction::Forward { frame: forwarded_from(own, d), notice: frame_notice(*final(sink)) }
            },
            _ => action is Continue && final(media).slots() == old(media).slots(),
        },
{
    let event = match event {
        Event::Connected => RtcEvent::Connected,
        Event::IceConnectionStateChange(state) => RtcEvent::IceConnectionStateChange(state),
        Event::MediaAdded(added) => RtcEvent::MediaAdded(added),
        Event::MediaData(data) => RtcEvent::MediaData(data),
        Event::SenderFeedback(feedback) => RtcEvent::SenderFeedback(feedback),
        Event::StreamPaused(paused) => RtcEvent::StreamPaused(paused),
        other => RtcEvent::Other(other),
    };
    handle_rtc_event(media, sink, own, event)
}

/// What became of a forwarded audio frame.
#[derive(Debug)]
pub enum ForwardOutcome {
    /// Dropped: the peer is not connected, or the frame is its own.
    Dropped,
    /// Queued for sending on the speaker's slot, as the receipt records.
    Written(WriteReceipt),
    /// The speaker's slot `0` has no writer.
    NoWriter(Mid),
    /// The speaker's slot `0` has no payload type matching the frame.
    NoPayloadType(Mid),
    /// Writing the frame failed.
    WriteFailed(RtcError),
    /// No slot is free: ask the peer for this many more slots.
    NeedSlots(usize),
    /// No slot is free and none can be requested now.
    NoSlot,
}

/// Write audio received from another session to this WebRTC peer, whose
/// session id is `own`.
///
/// The frame is dropped when the peer is not connected or the frame is its
/// own; otherwise the speaker's slot is looked up or handed out, and the
/// frame is written to it, marked as its talk spurt says, with the payload
/// type matching its codec parameters. When no slot is free, the outcome
/// says how many slots to request.
pub fn forward_audio(
    media: &mut SessionMedia<SdpPendingOffer, Mid>,
    rtc: &mut Rtc,
    own: SessionId,
    frame: ForwardedAudio,
) -> (outcome: ForwardOutcome)
    requires
        old(media).wf(),
        !rtc_rtp_mode(*old(rtc)),
    ensures
        final(media).wf(),
        final(media).pending() == old(media).pending(),
        rtc_rtp_mode(*final(rtc)) == rtc_rtp_mode(*old(rtc)),
        outcome is Dropped <==> (frame.origin == own || !rtc_connected(*old(rtc))),
        outcome is Dropped ==> final(media).slots() == old(media).slots(),
        !(outcome is Dropped) ==> {
            let (table, found) = old(media).slots().allocate(frame.origin.0);
            &&& final(media).slots() == table
            &&& match found {
                Some(mid) => if !rtc_has_writer(*old(rtc), mid) {
                    outcome == ForwardOutcome::NoWriter(mid)
                } else if rtc_payload_type(*old(rtc), frame.params) is None {
                    outcome == ForwardOutcome::NoPayloadType(mid)
                } else {
                    outcome is Written || outcome is WriteFailed
                },
                None => match slots_to_request(old(media).has_pending(), table.capacity()) {
                    Some(n) => outcome == ForwardOutcome::NeedSlots(n as usize),
                    None => outcome is NoSlot,
                },
            }
        },
        outcome matches ForwardOutcome::Written(r) ==> {
            &&& old(media).slots().allocate(frame.origin.0).1 == Some(r.mid())
            &&& rtc_payload_type(*old(rtc), frame.params) == Some(r.pt())
            &&& r.params() == frame.params
            &&& r.start_of_talkspurt() == frame.start_of_talkspurt
            &&& r.time() == frame.time
            &&& r.network_time() == frame.network_time
            &&& r.data() == frame.data
        },
{
    let connected = rtc_is_connected(rtc);
    let mid = match media.route_forwarded_audio(connected, own, frame.origin) {
        ForwardRoute::Drop => return ForwardOutcome::Dropped,
        ForwardRoute::Write(mid) => mid,
        ForwardRoute::RequestSlots(n) => return ForwardOutcome::NeedSlots(n),
        ForwardRoute::NoSlot => return ForwardOutcome::NoSlot,
    };
    let writer = match rtc_writer(rtc, mid) {
        Some(writer) => writer,
        None => return ForwardOutcome::NoWriter(mid),
    };
    let pt = match writer_match_params(&writer, frame.params) {
        Some(pt) => pt,
        None => return ForwardOutcome::NoPayloadType(mid),
    };
    let writer = writer_start_of_talkspurt(writer, frame.start_of_talkspurt);
    match writer_write(
        writer,
        mid,
        frame.params,
        frame.start_of_talkspurt,
        pt,
        frame.network_time,
        frame.time,
        frame.data,
    ) {
        Ok(receipt) => ForwardOutcome::Written(receipt),
        Err(e) => ForwardOutcome::WriteFailed(e),
    }
}

/// An offer that asks the peer for more audio slots.
pub struct PreparedOffer {
    /// The offer str0m made.
    pub offer: Ghost<SdpOffer>,
    /// SDP text of the offer, to send to the peer.
    pub sdp: String,
    /// Handle that accepts the peer's answer.
    pub pending: SdpPendingOffer,
    /// The slots the offer adds.
    pub mids: Vec<Mid>,
}

/// The changes that add a send-only audio line for each of `mids`.
pub open spec fn send_only_audio(mids: Seq<Mid>) -> Seq<BatchChange> {
    mids.map_values(|mid: Mid| BatchChange::Media { mid, kind: MediaKind::Audio, direction: Direction::SendOnly })
}

/// Create an offer that adds `count` send-only audio media lines, or
/// `None` when there is nothing to negotiate, that is when `count` is zero.
pub fn prepare_offer(rtc: &mut Rtc, count: usize) -> (offer: Option<PreparedOffer>)
    ensures
        rtc_rtp_mode(*final(rtc)) == rtc_rtp_mode(*old(rtc)),
        offer is Some <==> count > 0,
        offer matches Some(o) ==> {
            &&& o.mids@.len() == count
            &&& pending_batch(o.pending) == send_only_audio(o.mids@)
            &&& pending_batch(o.pending).len() == count
            &&& forall|i: int|
                0 <= i < count ==> #[trigger] pending_batch(o.pending)[i] == BatchChange::Media {
                    mid: o.mids@[i],
                    kind: MediaKind::Audio,
                    direction: Direction::SendOnly,
                }
            &&& o.sdp@ == offer_text(o.offer@)
        },
{
    let mut changes = rtc_sdp_api(rtc);
    let mut mids: Vec<Mid> = Vec::new();
    let mut i: usize = 0;
    while i < count
        invariant
            i <= count,
            mids@.len() == i,
            sdp_batch(changes) == send_only_audio(mids@),
        decreases count - i,
    {
        let mid = sdp_add_media(&mut changes, MediaKind::Audio, Direction::SendOnly, None, None, None);
        proof {
            let line = BatchChange::Media { mid, kind: MediaKind::Audio, direction: Direction::SendOnly };
            assert(send_only_audio(mids@.push(mid)) =~= send_only_audio(mids@).push(line));
        }
        mids.push(mid);
        i = i + 1;
    }
    if count > 0 {
        assert(sdp_batch(changes)[0].negotiates());
    }
    match sdp_apply(changes) {
        Some((offer, pending)) => {
            let sdp = sdp_offer_to_string(&offer);
            Some(PreparedOffer { offer: Ghost(offer), sdp, pending, mids })
        },
        None => None,
    }
}

/// What became of the peer's answer to a pending offer.
#[derive(Debug)]
pub enum AnswerOutcome {
    /// The answer is not valid SDP.
    Unparsable,
    /// str0m rejected the answer.
    Rejected(RtcError),
    /// The answer was accepted and the offer's slots are free slots now.
    Accepted,
}

/// Conclude a negotiation with str0m's verdict on the answer: once accepted,
/// the offered `mids` become free slots; a rejection changes nothing.
pub fn conclude_answer(
    media: &mut SessionMedia<SdpPendingOffer, Mid>,
    mids: Vec<Mid>,
    verdict: Result<AnswerAccepted, RtcError>,
) -> (outcome: AnswerOutcome)
    requires
        old(media).wf(),
        old(media).slots().capacity() + mids@.len() <= usize::MAX,
    ensures
        final(media).wf(),
        final(media).pending() == old(media).pending(),
        final(media).slots().remote == old(media).slots().remote,
        match verdict {
            Ok(_) => outcome is Accepted && final(media).slots().available == old(media).slots().available + mids@
                && final(media).answers_accepted() == old(media).answers_accepted() + 1,
            Err(e) => outcome == AnswerOutcome::Rejected(e) && final(media).slots().available
                == old(media).slots().available && final(media).answers_accepted() == old(media).answers_accepted(),
        },
{
    match verdict {
        Ok(acceptance) => {
            media.acknowledge(&acceptance);
            media.complete_negotiation(mids);
            AnswerOutcome::Accepted
        },
        Err(e) => AnswerOutcome::Rejected(e),
    }
}

/// Accept `sdp` as the peer's answer to `pending`. An answer that does not
/// parse is `Unparsable`; one that parses is handed to str0m with the
/// pending offer, and its verdict concludes the negotiation as
/// [`conclude_answer`] says.
pub fn accept_answer(
    media: &mut SessionMedia<SdpPendingOffer, Mid>,
    rtc: &mut Rtc,
    sdp: &str,
    pending: PendingNegotiation<SdpPendingOffer, Mid>,
) -> (outcome: AnswerOutcome)
    requires
        old(media).wf(),
        old(media).slots().capacity() + pending.mids@.len() <= usize::MAX,
    ensures
        final(media).wf(),
        final(media).pending() == old(media).pending(),
        rtc_rtp_mode(*final(rtc)) == rtc_rtp_mode(*old(rtc)),
        outcome is Unparsable <==> !sdp_answer_parses(sdp@),
        outcome is Accepted <==> final(media).answers_accepted() == old(media).answers_accepted() + 1,
        !(outcome is Accepted) ==> final(media).answers_accepted() == old(media).answers_accepted(),
        final(media).slots().remote == old(media).slots().remote,
        final(media).slots().available == if outcome is Accepted {
            old(media).slots().available + pending.mids@
        } else {
            old(media).slots().available
        },
{
    let answer = match sdp_answer_from_string(sdp) {
        Ok(answer) => answer,
        Err(_) => return AnswerOutcome::Unparsable,
    };
    let changes = rtc_sdp_api(rtc);
    let verdict = sdp_accept_answer(changes, pending.offer, answer);
    conclude_answer(media, pending.mids, verdict)
}

/// The WebRTC engine of one session: Opus audio only, without redundancy,
/// writing media frame by frame (not in RTP mode).
pub fn new_rtc(start: Instant) -> (rtc: Rtc)
    ensures
        !rtc_rtp_mode(rtc),
        rtc_codecs(rtc) == seq![CodecEntry { opus: true, red: false }],
{
    let config = rtc_config_new();
    let config = rtc_config_clear_codecs(config);
    let config = rtc_config_enable_opus(config, true, false);
    assert(without_opus(Seq::<CodecEntry>::empty()) == Seq::<CodecEntry>::empty());
    assert(Seq::<CodecEntry>::empty().push(CodecEntry { opus: true, red: false }) =~= seq![
        CodecEntry { opus: true, red: false },
    ]);
    rtc_config_build(config, start)
}

/// Parse the peer's SDP offer.
pub fn parse_offer(offer_sdp: &str) -> (offer: Result<SdpOffer, SdpError>)
    ensures
        offer is Ok <==> sdp_offer_parses(offer_sdp@),
        offer matches Ok(o) ==> o == parsed_offer(offer_sdp@),
{
    sdp_offer_from_string(offer_sdp)
}

/// Why the peer's offer could not be answered.
#[derive(Debug)]
pub enum OfferError {
    /// str0m refused the local host candidate.
    AddLocalCandidate,
    /// str0m refused the offer.
    AcceptOffer(RtcError),
}

/// The answer to the peer's offer.
pub struct OfferAnswer {
    /// The answer str0m made.
    pub answer: Ghost<SdpAnswer>,
    /// SDP text of the answer, to send to the peer.
    pub sdp: String,
}

/// Answer the peer's offer: add the local host `candidate`, accept `offer`,
/// and give the answer with its SDP text. The candidate is added before the
/// offer is looked at, and a refused candidate ends the attempt.
pub fn answer_offer(rtc: &mut Rtc, candidate: Candidate, offer: SdpOffer) -> (answer: Result<OfferAnswer, OfferError>)
    ensures
        rtc_rtp_mode(*final(rtc)) == rtc_rtp_mode(*old(rtc)),
        answer matches Err(OfferError::AddLocalCandidate) <==> !candidate_accepted(*old(rtc), candidate),
        answer matches Ok(a) ==> a.sdp@ == answer_text(a.answer@),
{
    match rtc_add_local_candidate(rtc, candidate) {
        Some(_) => {},
        None => return Err(OfferError::AddLocalCandidate),
    }
    let changes = rtc_sdp_api(rtc);
    match sdp_accept_offer(changes, offer) {
        Ok(answer) => {
            let sdp = sdp_answer_to_string(&answer);
            Ok(OfferAnswer { answer: Ghost(answer), sdp })
        },
        Err(e) => Err(OfferError::AcceptOffer(e)),
    }
}

} // verus!
