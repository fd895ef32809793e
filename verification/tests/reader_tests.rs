use hashpipe::event::Event;
use hashpipe::reader::IncomingKind;
use hashpipe::reader::ResponseCode;
use hashpipe::reader::StreamEnd;
use hashpipe::reader::classify_incoming;
use hashpipe::reader::terminal_events;

fn privmsg(sender: Option<&str>, target: &str, text: &str) -> IncomingKind {
    IncomingKind::Privmsg {
        sender: sender.map(|s| s.to_string()),
        target: target.to_string(),
        text: text.to_string(),
    }
}

#[test]
fn classify_join_emits_channel_joined() {
    let step = classify_incoming(IncomingKind::Join, false, false);
    assert_eq!(step.event, Some(Event::ChannelJoined));
    assert_eq!(step.print, None);
}

#[test]
fn classify_quit_emits_peer_quit() {
    let step = classify_incoming(IncomingKind::Quit, false, false);
    assert_eq!(step.event, Some(Event::PeerQuit));
    assert_eq!(step.print, None);
}

#[test]
fn classify_privmsg_prints_formatted_line() {
    let step = classify_incoming(privmsg(Some("ada"), "#test", "hi there"), false, false);
    assert_eq!(step.event, None);
    assert_eq!(step.print, Some("ada->#test: hi there".to_string()));
}

#[test]
fn classify_privmsg_without_sender_uses_placeholder() {
    let step = classify_incoming(privmsg(None, "#test", "hi"), false, false);
    assert_eq!(step.print, Some("* ->#test: hi".to_string()));
}

#[test]
fn classify_notice_prints_formatted_line() {
    let msg = IncomingKind::Notice {
        sender: Some("oper".to_string()),
        target: "betsy".to_string(),
        text: "welcome".to_string(),
    };
    let step = classify_incoming(msg, false, false);
    assert_eq!(step.event, None);
    assert_eq!(step.print, Some("oper->betsy: welcome".to_string()));
}

#[test]
fn classify_raw_echo_suppresses_formatted_print() {
    let step = classify_incoming(privmsg(Some("ada"), "#test", "hi"), true, false);
    assert_eq!(step.print, None);
    // Raw output takes precedence over quiet mode; both suppress the print.
    let step = classify_incoming(privmsg(Some("ada"), "#test", "hi"), true, true);
    assert_eq!(step.print, None);
}

#[test]
fn classify_quiet_suppresses_formatted_print() {
    let step = classify_incoming(privmsg(Some("ada"), "#test", "hi"), false, true);
    assert_eq!(step.print, None);
    assert_eq!(step.event, None);
}

#[test]
fn classify_join_denials_emit_join_failed() {
    let codes = [
        ResponseCode::ChannelIsFull,
        ResponseCode::InviteOnlyChan,
        ResponseCode::BannedFromChan,
        ResponseCode::BadChannelKey,
        ResponseCode::NoSuchChannel,
    ];
    for code in codes {
        let msg = IncomingKind::Response {
            code,
            args: vec!["hashpipe".to_string(), "#secret".to_string()],
            suffix: Some("Cannot join channel".to_string()),
        };
        let step = classify_incoming(msg, false, false);
        assert_eq!(
            step.event,
            Some(Event::ChannelJoinFailed("#secret: Cannot join channel".to_string()))
        );
        assert_eq!(step.print, None);
    }
}

#[test]
fn classify_join_denial_with_missing_payload() {
    let msg = IncomingKind::Response {
        code: ResponseCode::NoSuchChannel,
        args: vec![],
        suffix: None,
    };
    let step = classify_incoming(msg, false, false);
    assert_eq!(step.event, Some(Event::ChannelJoinFailed(": ".to_string())));
}

#[test]
fn classify_end_of_handshake_emits_connected() {
    for code in [ResponseCode::EndOfMotd, ResponseCode::NoMotd] {
        let msg = IncomingKind::Response { code, args: vec![], suffix: None };
        let step = classify_incoming(msg, false, false);
        assert_eq!(step.event, Some(Event::Connected));
        assert_eq!(step.print, None);
    }
}

#[test]
fn classify_unclassified_response_is_dropped() {
    let msg = IncomingKind::Response {
        code: ResponseCode::Unclassified,
        args: vec!["hashpipe".to_string()],
        suffix: Some("End of /NAMES list".to_string()),
    };
    let step = classify_incoming(msg, false, false);
    assert_eq!(step.event, None);
    assert_eq!(step.print, None);
}

#[test]
fn classify_other_is_dropped() {
    let step = classify_incoming(IncomingKind::Other, false, false);
    assert_eq!(step.event, None);
    assert_eq!(step.print, None);
}

#[test]
fn terminal_events_on_clean_close() {
    let events = terminal_events(StreamEnd::Closed);
    assert_eq!(events, vec![Event::PeerQuit]);
}

#[test]
fn terminal_events_on_transport_fault() {
    let events = terminal_events(StreamEnd::Failed("connection reset".to_string()));
    assert_eq!(
        events,
        vec![Event::ProtocolFailure("connection reset".to_string()), Event::PeerQuit]
    );
}
