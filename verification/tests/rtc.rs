use std::sync::Arc;
use std::time::Instant;

use sada::media::AudioSink;
use sada::rtc::{
    accept_answer, answer_offer, forward_audio, handle_event, handle_rtc_event, new_rtc, parse_offer, prepare_offer,
    AnswerOutcome, EventAction, ForwardOutcome, ForwardedAudio, OfferError, RtcEvent,
};
use sada::session::{SessionId, SessionMedia};
use str0m::change::{SdpOffer, SdpPendingOffer};
use str0m::format::CodecExtra;
use str0m::media::{Direction, ExtensionValues, Frequency, MediaAdded, MediaData, MediaKind, MediaTime, Mid, Pt};
use str0m::rtp::SeqNo;
use str0m::{Candidate, Event, IceConnectionState, Rtc};

fn frame(rtc: &Rtc, origin: u32) -> ForwardedAudio {
    ForwardedAudio {
        origin: SessionId(origin),
        params: rtc.codec_config().params()[0],
        time: MediaTime::new(0, Frequency::FORTY_EIGHT_KHZ),
        network_time: Instant::now(),
        data: Arc::from(vec![1u8, 2, 3]),
        start_of_talkspurt: true,
    }
}

#[test]
fn unconnected_peer_drops_forwarded_audio() {
    let mut rtc = Rtc::new(Instant::now());
    let mut media: SessionMedia<SdpPendingOffer, Mid> = SessionMedia::new();
    let audio = frame(&rtc, 2);
    let copy = audio.clone();
    assert_eq!(copy.origin, SessionId(2));
    assert!(copy.start_of_talkspurt);
    assert!(matches!(forward_audio(&mut media, &mut rtc, SessionId(1), audio), ForwardOutcome::Dropped));
    assert!(matches!(forward_audio(&mut media, &mut rtc, SessionId(2), copy), ForwardOutcome::Dropped));
    assert_eq!(media.remote_audio_capacity(), 0);
}

#[test]
fn offer_adds_requested_audio_lines() {
    let mut rtc = Rtc::new(Instant::now());
    let prepared = prepare_offer(&mut rtc, 3).expect("an offer");
    assert_eq!(prepared.mids.len(), 3);
    assert_eq!(prepared.sdp.matches("m=audio").count(), 3);
    assert!(prepared.sdp.contains("a=sendonly"));
}

#[test]
fn garbage_answer_is_unparsable_and_adds_no_slots() {
    let mut rtc = Rtc::new(Instant::now());
    let mut media: SessionMedia<SdpPendingOffer, Mid> = SessionMedia::new();
    let prepared = prepare_offer(&mut rtc, 2).expect("an offer");
    media.begin_negotiation(prepared.pending, prepared.mids);
    let pending = media.take_pending().expect("a pending offer");
    assert!(matches!(
        accept_answer(&mut media, &mut rtc, "definitely not sdp", pending),
        AnswerOutcome::Unparsable
    ));
    assert_eq!(media.remote_audio_capacity(), 0);
}

#[test]
fn events_update_slots_and_decide_the_loop() {
    let mut media: SessionMedia<SdpPendingOffer, Mid> = SessionMedia::new();
    let mut sink = AudioSink::new();
    let added = |mid: &str, kind, direction| {
        RtcEvent::MediaAdded(MediaAdded { mid: Mid::from(mid), kind, direction, simulcast: None })
    };
    assert!(matches!(handle_rtc_event(&mut media, &mut sink, SessionId(7), added("a", MediaKind::Audio, Direction::SendOnly)), EventAction::Continue));
    assert!(matches!(handle_rtc_event(&mut media, &mut sink, SessionId(7), added("b", MediaKind::Audio, Direction::RecvOnly)), EventAction::Continue));
    assert!(matches!(handle_rtc_event(&mut media, &mut sink, SessionId(7), added("c", MediaKind::Video, Direction::SendRecv)), EventAction::Continue));
    assert!(matches!(handle_rtc_event(&mut media, &mut sink, SessionId(7), added("d", MediaKind::Audio, Direction::SendRecv)), EventAction::Continue));
    assert_eq!(media.remote_audio_capacity(), 2);
    assert_eq!(media.forwarded_audio_mid(SessionId(9)), Some(Mid::from("d")));
    assert!(matches!(
        handle_rtc_event(&mut media, &mut sink, SessionId(7), RtcEvent::IceConnectionStateChange(IceConnectionState::Disconnected)),
        EventAction::Done
    ));
    assert!(matches!(
        handle_rtc_event(&mut media, &mut sink, SessionId(7), RtcEvent::IceConnectionStateChange(IceConnectionState::Checking)),
        EventAction::Continue
    ));
    assert!(matches!(handle_rtc_event(&mut media, &mut sink, SessionId(7), RtcEvent::Connected), EventAction::Continue));
}

#[test]
fn no_offer_without_requested_lines() {
    let mut rtc = Rtc::new(Instant::now());
    assert!(prepare_offer(&mut rtc, 0).is_none());
}

#[test]
fn parsable_answer_is_accepted_and_frees_the_offered_slots() {
    let mut rtc = Rtc::new(Instant::now());
    let mut peer = Rtc::new(Instant::now());
    let mut media: SessionMedia<SdpPendingOffer, Mid> = SessionMedia::new();
    let prepared = prepare_offer(&mut rtc, 2).expect("an offer");
    let offer = SdpOffer::from_sdp_string(&prepared.sdp).expect("our own offer parses");
    let answer = peer.sdp_api().accept_offer(offer).expect("the peer answers");
    media.begin_negotiation(prepared.pending, prepared.mids);
    let pending = media.take_pending().expect("a pending offer");
    let outcome = accept_answer(&mut media, &mut rtc, &answer.to_sdp_string(), pending);
    assert!(matches!(outcome, AnswerOutcome::Accepted), "{outcome:?}");
    assert_eq!(media.remote_audio_capacity(), 2);
}

#[test]
fn str0m_events_are_told_apart() {
    let mut media: SessionMedia<SdpPendingOffer, Mid> = SessionMedia::new();
    let mut sink = AudioSink::new();
    let added = MediaAdded { mid: Mid::from("a"), kind: MediaKind::Audio, direction: Direction::SendOnly, simulcast: None };
    assert!(matches!(handle_event(&mut media, &mut sink, SessionId(7), Event::MediaAdded(added)), EventAction::Continue));
    assert_eq!(media.remote_audio_capacity(), 1);
    assert!(matches!(handle_event(&mut media, &mut sink, SessionId(7), Event::Connected), EventAction::Continue));
    assert!(matches!(handle_event(&mut media, &mut sink, SessionId(7), Event::Closed), EventAction::Continue));
    assert!(matches!(
        handle_event(&mut media, &mut sink, SessionId(7), Event::IceConnectionStateChange(IceConnectionState::Disconnected)),
        EventAction::Done
    ));
    assert!(matches!(
        handle_event(&mut media, &mut sink, SessionId(7), Event::IceConnectionStateChange(IceConnectionState::Connected)),
        EventAction::Continue
    ));
    assert_eq!(media.remote_audio_capacity(), 1);
}

fn received(rtc: &Rtc, start: bool, bytes: Vec<u8>) -> MediaData {
    MediaData {
        mid: Mid::from("a"),
        pt: Pt::from(111),
        rid: None,
        params: rtc.codec_config().params()[0],
        time: MediaTime::new(960, Frequency::FORTY_EIGHT_KHZ),
        network_time: Instant::now(),
        seq_range: SeqNo::from(1)..=SeqNo::from(1),
        contiguous: true,
        data: Arc::from(bytes),
        ext_vals: ExtensionValues::default(),
        codec_extra: CodecExtra::None,
        last_sender_info: None,
        audio_start_of_talk_spurt: start,
    }
}

#[test]
fn media_data_is_counted_and_forwarded_as_the_sessions_frame() {
    let rtc = Rtc::new(Instant::now());
    let mut media: SessionMedia<SdpPendingOffer, Mid> = SessionMedia::new();
    let mut sink = AudioSink::new();
    let data = received(&rtc, true, vec![9, 8, 7, 6]);
    let (params, time, network_time) = (data.params, data.time, data.network_time);
    match handle_event(&mut media, &mut sink, SessionId(4), Event::MediaData(data)) {
        EventAction::Forward { frame, notice } => {
            assert_eq!(frame.origin, SessionId(4));
            assert_eq!(frame.params, params);
            assert_eq!(frame.time, time);
            assert_eq!(frame.network_time, network_time);
            assert_eq!(&frame.data[..], &[9, 8, 7, 6]);
            assert!(frame.start_of_talkspurt);
            assert!(notice.log_frame);
            assert!(notice.report_dump_error);
        },
        other => panic!("expected a forwarded frame, got {other:?}"),
    }
    assert_eq!(sink.frame_count(), 1);
    assert_eq!(sink.byte_count(), 4);
    let frame = ForwardedAudio::new(SessionId(5), received(&rtc, false, vec![1]));
    assert_eq!(frame.origin, SessionId(5));
    assert!(!frame.start_of_talkspurt);
    assert_eq!(&frame.data[..], &[1]);
}

#[test]
fn offers_parse_and_are_answered() {
    assert!(parse_offer("definitely not sdp").is_err());
    let mut offerer = Rtc::new(Instant::now());
    let prepared = prepare_offer(&mut offerer, 1).expect("an offer");
    let offer = parse_offer(&prepared.sdp).expect("the offer parses");
    let mut rtc = new_rtc(Instant::now());
    let candidate = Candidate::host("192.168.1.10:5000".parse().unwrap(), "udp").expect("a host candidate");
    let answer = answer_offer(&mut rtc, candidate, offer).expect("an answer").sdp;
    assert!(answer.contains("m=audio"));
    assert!(answer.contains("a=recvonly"));
    assert!(answer.contains("192.168.1.10"));
    let parsed = parse_offer(&prepared.sdp).expect("the offer parses again");
    assert_eq!(parsed.to_sdp_string(), prepared.sdp);
}

#[test]
fn an_offer_without_media_lines_is_refused() {
    let mut rtc = new_rtc(Instant::now());
    let candidate = Candidate::host("192.168.1.10:5001".parse().unwrap(), "udp").expect("a host candidate");
    let empty = "v=0\r\no=- 1 1 IN IP4 0.0.0.0\r\ns=-\r\nt=0 0\r\n";
    let offer = parse_offer(empty).expect("a session without media lines parses");
    assert!(matches!(answer_offer(&mut rtc, candidate, offer), Err(OfferError::AcceptOffer(_))));
}

#[test]
fn session_engine_has_only_opus_without_red() {
    let rtc = new_rtc(Instant::now());
    let params = rtc.codec_config().params();
    assert_eq!(params.len(), 1);
    assert_eq!(params[0].spec().codec, str0m::format::Codec::Opus);
    assert_eq!(params[0].red(), None);
}

#[test]
fn prepared_offer_text_is_the_offers_sdp() {
    let mut rtc = new_rtc(Instant::now());
    let prepared = prepare_offer(&mut rtc, 2).expect("an offer");
    assert!(prepared.sdp.starts_with("v=0"));
    let reparsed = parse_offer(&prepared.sdp).expect("the text parses as an offer");
    assert_eq!(reparsed.to_sdp_string(), prepared.sdp);
}
