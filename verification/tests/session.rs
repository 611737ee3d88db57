use sada::session::{EventStep, ForwardRoute, SessionEvent, SessionId, SessionMedia, SignalStep};
use sada::signaling::SignalMessage;

type Media = SessionMedia<&'static str, u16>;

#[test]
fn slots_are_assigned_once_and_released() {
    let mut media = Media::new();
    media.media_added(10, true, true);
    media.media_added(11, true, true);
    media.media_added(12, false, true);
    media.media_added(13, true, false);
    assert_eq!(media.remote_audio_capacity(), 2);

    assert_eq!(media.forwarded_audio_mid(SessionId(1)), Some(11));
    assert_eq!(media.forwarded_audio_mid(SessionId(1)), Some(11));
    assert_eq!(media.forwarded_audio_mid(SessionId(2)), Some(10));
    assert_eq!(media.forwarded_audio_mid(SessionId(3)), None);
    assert_eq!(media.remote_audio_capacity(), 2);

    media.release_forwarded_audio(SessionId(1));
    media.release_forwarded_audio(SessionId(9));
    assert_eq!(media.remote_audio_capacity(), 2);
    assert_eq!(media.forwarded_audio_mid(SessionId(3)), Some(11));
}

#[test]
fn negotiation_doubles_capacity() {
    let mut media = Media::new();
    assert_eq!(media.plan_negotiation(), Some(2));
    media.begin_negotiation("offer", vec![1, 2]);
    assert_eq!(media.plan_negotiation(), None);
    let pending = media.take_pending().unwrap();
    assert_eq!(pending.offer, "offer");
    media.complete_negotiation(pending.mids);
    assert_eq!(media.remote_audio_capacity(), 2);
    assert_eq!(media.plan_negotiation(), Some(2));
    media.media_added(3, true, true);
    assert_eq!(media.plan_negotiation(), Some(3));
    assert!(media.take_pending().is_none());
}

#[test]
fn forwarded_audio_routes() {
    let mut media = Media::new();
    let own = SessionId(5);
    assert!(matches!(media.route_forwarded_audio(false, own, SessionId(1)), ForwardRoute::Drop));
    assert!(matches!(media.route_forwarded_audio(true, own, own), ForwardRoute::Drop));
    assert!(matches!(media.route_forwarded_audio(true, own, SessionId(1)), ForwardRoute::RequestSlots(2)));
    media.begin_negotiation("offer", vec![7]);
    assert!(matches!(media.route_forwarded_audio(true, own, SessionId(1)), ForwardRoute::NoSlot));
    media.media_added(4, true, true);
    assert!(matches!(media.route_forwarded_audio(true, own, SessionId(1)), ForwardRoute::Write(4)));
}

#[test]
fn signals_drive_the_pending_offer() {
    let mut media = Media::new();
    assert!(matches!(media.on_signal(SignalMessage::Answer { sdp: "x".into() }), SignalStep::UnexpectedAnswer));
    media.begin_negotiation("offer", vec![8, 9]);
    match media.on_signal(SignalMessage::Answer { sdp: "v=0".into() }) {
        SignalStep::AcceptAnswer { sdp, pending } => {
            assert_eq!(sdp, "v=0");
            assert_eq!(pending.mids, vec![8, 9]);
        },
        _ => panic!("expected an answer to accept"),
    }
    assert!(matches!(media.on_signal(SignalMessage::Offer { sdp: "x".into() }), SignalStep::Ignore));
    assert!(matches!(media.on_signal(SignalMessage::Close), SignalStep::Stop));
}

#[test]
fn events_decide_the_loop() {
    let mut media = Media::new();
    assert_eq!(media.handle_event(SessionEvent::Connected), EventStep::Continue);
    assert_eq!(media.handle_event(SessionEvent::IceDisconnected), EventStep::Done);
    assert_eq!(media.handle_event(SessionEvent::MediaData), EventStep::Forward);
    assert_eq!(media.handle_event(SessionEvent::MediaAdded { mid: 1, audio: true, sending: true }), EventStep::Continue);
    assert_eq!(media.handle_event(SessionEvent::Quiet), EventStep::Continue);
    assert_eq!(media.remote_audio_capacity(), 1);
}

#[test]
fn handing_out_and_releasing_keeps_the_same_slots() {
    let mut media = Media::new();
    media.media_added(20, true, true);
    media.media_added(21, true, true);
    media.media_added(22, true, true);
    assert!(!media.negotiation_pending());
    assert_eq!(media.forwarded_audio_mid(SessionId(5)), Some(22));
    assert_eq!(media.forwarded_audio_mid(SessionId(6)), Some(21));
    media.release_forwarded_audio(SessionId(5));
    assert_eq!(media.remote_audio_capacity(), 3);
    let mut seen = vec![
        media.forwarded_audio_mid(SessionId(7)).unwrap(),
        media.forwarded_audio_mid(SessionId(8)).unwrap(),
        media.forwarded_audio_mid(SessionId(6)).unwrap(),
    ];
    seen.sort();
    assert_eq!(seen, vec![20, 21, 22]);
    assert_eq!(media.forwarded_audio_mid(SessionId(9)), None);
}
