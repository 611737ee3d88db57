use sada::byond::{byond_arg_count, FromByondArg};
use sada::signaling::{incoming_action, outgoing_action, IncomingAction, Inbound, OutgoingAction, SignalMessage};

#[test]
fn first_offer_starts_a_session() {
    let offer = || Inbound::Signal(SignalMessage::Offer { sdp: "v=0".to_owned() });
    match incoming_action(offer(), false, false) {
        IncomingAction::StartSession { sdp } => assert_eq!(sdp, "v=0"),
        other => panic!("unexpected {other:?}"),
    }
    assert!(matches!(incoming_action(offer(), true, true), IncomingAction::Continue));
    assert!(matches!(incoming_action(offer(), false, true), IncomingAction::Continue));
}

#[test]
fn inbound_frames_that_end_or_are_ignored() {
    for stop in [Inbound::Ended, Inbound::CloseFrame, Inbound::ReadFailed, Inbound::Signal(SignalMessage::Close)] {
        assert!(matches!(incoming_action(stop, false, false), IncomingAction::Stop));
    }
    for skip in [Inbound::NotText, Inbound::Unparsable, Inbound::Signal(SignalMessage::Answer { sdp: String::new() })] {
        assert!(matches!(incoming_action(skip, false, false), IncomingAction::Continue));
    }
    assert!(matches!(outgoing_action(None), OutgoingAction::Stop));
    assert!(matches!(outgoing_action(Some("x".into())), OutgoingAction::Send(ref t) if t == "x"));
}

#[test]
fn byond_arguments_convert_forgivingly() {
    assert_eq!(<&str as FromByondArg>::from_byond_arg("abc"), "abc");
    assert_eq!(<String as FromByondArg>::from_byond_arg("abc"), "abc".to_owned());
    assert!(<bool as FromByondArg>::from_byond_arg("true"));
    assert!(!<bool as FromByondArg>::from_byond_arg("false"));
    assert!(!<bool as FromByondArg>::from_byond_arg("1"));
    assert_eq!(<char as FromByondArg>::from_byond_arg("é"), 'é');
    assert_eq!(<char as FromByondArg>::from_byond_arg("ab"), '\0');
    assert_eq!(<i32 as FromByondArg>::from_byond_arg("-42"), -42);
    assert_eq!(<i32 as FromByondArg>::from_byond_arg("4x"), 0);
    assert_eq!(<u8 as FromByondArg>::from_byond_arg("256"), 0);
    assert_eq!(<u8 as FromByondArg>::from_byond_arg("255"), 255);
    assert_eq!(<u64 as FromByondArg>::from_byond_arg("-1"), 0);
    assert_eq!(<i128 as FromByondArg>::from_byond_arg("+7"), 7);
    assert_eq!(<usize as FromByondArg>::from_byond_arg("12"), 12);
    assert_eq!(<i8 as FromByondArg>::from_byond_arg("-128"), -128);
    assert_eq!(<i16 as FromByondArg>::from_byond_arg("300"), 300);
    assert_eq!(<i64 as FromByondArg>::from_byond_arg(""), 0);
    assert_eq!(<isize as FromByondArg>::from_byond_arg("-3"), -3);
    assert_eq!(<u16 as FromByondArg>::from_byond_arg("65535"), 65535);
    assert_eq!(<u32 as FromByondArg>::from_byond_arg("7"), 7);
    assert_eq!(<u128 as FromByondArg>::from_byond_arg("9"), 9);
}

#[test]
fn integer_arguments_follow_the_decimal_grammar() {
    assert_eq!(<u8 as FromByondArg>::from_byond_arg("+42"), 42);
    assert_eq!(<u8 as FromByondArg>::from_byond_arg("-0"), 0);
    assert_eq!(<u8 as FromByondArg>::from_byond_arg("256"), 0);
    assert_eq!(<i8 as FromByondArg>::from_byond_arg("-129"), 0);
    assert_eq!(<i32 as FromByondArg>::from_byond_arg("-"), 0);
    assert_eq!(<i32 as FromByondArg>::from_byond_arg("+"), 0);
    assert_eq!(<i32 as FromByondArg>::from_byond_arg(" 5"), 0);
    assert_eq!(<i32 as FromByondArg>::from_byond_arg("0042"), 42);
    assert_eq!(<u32 as FromByondArg>::from_byond_arg("4x"), 0);
}

#[test]
fn argument_slots() {
    assert_eq!(byond_arg_count(2, 3), 2);
    assert_eq!(byond_arg_count(5, 3), 3);
    assert_eq!(byond_arg_count(-1, 3), 0);
    assert_eq!(byond_arg_count(0, 3), 0);
}
