use hashpipe::event::Event;
use hashpipe::event::io_failure;
use hashpipe::event::parse_failure;
use hashpipe::event::protocol_failure;
use hashpipe::relay::RawLineStep;
use hashpipe::relay::crlf_terminate;
use hashpipe::relay::plan_formatted;
use hashpipe::relay::relay_raw_line;
use hashpipe::relay::send_outcome_event;
use irc::proto::Command;

#[test]
fn crlf_terminate_appends_wire_ending() {
    assert_eq!(crlf_terminate("PING :token"), "PING :token\r\n".to_string());
    assert_eq!(crlf_terminate(""), "\r\n".to_string());
}

#[test]
fn plan_formatted_covers_every_target_in_order() {
    let targets = vec!["#a".to_string(), "#b".to_string(), "#c".to_string()];
    let plan = plan_formatted("hello", &targets);
    assert_eq!(plan.len(), 3);
    for (send, target) in plan.iter().zip(targets.iter()) {
        assert_eq!(&send.target, target);
        assert_eq!(send.text, "hello".to_string());
    }
}

#[test]
fn plan_formatted_with_no_targets_sends_nothing() {
    let plan = plan_formatted("hello", &vec![]);
    assert_eq!(plan.len(), 0);
}

#[test]
fn send_outcome_success_is_silent() {
    assert_eq!(send_outcome_event(None), None);
}

#[test]
fn send_outcome_failure_reports_protocol_failure() {
    let event = send_outcome_event(Some("send failed".to_string()));
    assert_eq!(event, Some(Event::ProtocolFailure("send failed".to_string())));
}

#[test]
fn raw_well_formed_line_is_sent() {
    match relay_raw_line("PRIVMSG #test :hello") {
        RawLineStep::Send(msg) => match msg.command {
            Command::PRIVMSG(target, text) => {
                assert_eq!(target, "#test".to_string());
                assert_eq!(text, "hello".to_string());
            }
            other => panic!("parsed into unexpected command {:?}", other),
        },
        RawLineStep::Skip(event) => panic!("well-formed line skipped with {:?}", event),
    }
}

#[test]
fn raw_unparsable_line_is_skipped_with_parse_failure() {
    match relay_raw_line(":nick :oops") {
        RawLineStep::Send(msg) => panic!("unparsable line sent as {:?}", msg),
        RawLineStep::Skip(event) => assert!(matches!(event, Event::ParseFailure(_))),
    }
}

#[test]
fn raw_bad_line_does_not_stop_the_next_line() {
    assert!(matches!(relay_raw_line(":nick :oops"), RawLineStep::Skip(_)));
    assert!(matches!(relay_raw_line("JOIN #test"), RawLineStep::Send(_)));
}

#[test]
fn fault_mappings_keep_their_origin() {
    assert_eq!(
        io_failure("broken pipe".to_string()),
        Event::IoFailure("broken pipe".to_string())
    );
    assert_eq!(
        protocol_failure("connection reset".to_string()),
        Event::ProtocolFailure("connection reset".to_string())
    );
    assert_eq!(
        parse_failure("invalid command".to_string()),
        Event::ParseFailure("invalid command".to_string())
    );
}
