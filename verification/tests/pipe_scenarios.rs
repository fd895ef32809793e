//! Whole-pipe scenarios, driving the verified decision logic the way the
//! surrounding process does: joining first, then per-line relaying, then the
//! single shutdown.

use hashpipe::event::Event;
use hashpipe::relay::plan_formatted;
use hashpipe::relay::send_outcome_event;
use hashpipe::supervisor::JoinProgress;
use hashpipe::supervisor::JoiningEnd;
use hashpipe::supervisor::JoiningInput;
use hashpipe::supervisor::RelayingDecision;
use hashpipe::supervisor::RelayingEnd;
use hashpipe::supervisor::RelayingInput;
use hashpipe::supervisor::relaying_step;
use hashpipe::supervisor::run_joining;
use hashpipe::supervisor::run_relaying;

#[test]
fn formatted_relay_single_failure_still_fans_out() {
    // A room list of size three; the middle send fails.
    let targets = vec!["#a".to_string(), "#b".to_string(), "#c".to_string()];
    let plan = plan_formatted("hello", &targets);
    assert_eq!(plan.len(), 3);

    let mut attempted: Vec<String> = Vec::new();
    let mut events: Vec<Event> = Vec::new();
    for send in plan {
        attempted.push(send.target.clone());
        let outcome = if send.target == "#b" { Some("send failed".to_string()) } else { None };
        if let Some(event) = send_outcome_event(outcome) {
            events.push(event);
        }
    }

    // Every destination was attempted, exactly one event was emitted, and
    // the supervisor keeps relaying on it.
    assert_eq!(attempted, vec!["#a".to_string(), "#b".to_string(), "#c".to_string()]);
    assert_eq!(events, vec![Event::ProtocolFailure("send failed".to_string())]);
    let decision = relaying_step(&RelayingInput::RelayEvent(events[0].clone()));
    assert_eq!(decision, RelayingDecision::Continue);
}

#[test]
fn end_to_end_formatted_pipe() {
    // Joining: one room, which joins after the handshake completes.
    let joining = vec![
        JoiningInput::ReaderEvent(Event::Connected),
        JoiningInput::ReaderEvent(Event::ChannelJoined),
    ];
    let end = run_joining(JoinProgress::new(1), &joining);
    assert_eq!(
        end,
        JoiningEnd::Ready(JoinProgress { joined_count: 1, required_count: 1, connected: true })
    );

    // Relaying: two input lines fan out to the single room, in order.
    let targets = vec!["#test".to_string()];
    let mut sends: Vec<(String, String)> = Vec::new();
    for line in ["hello", "world"] {
        for send in plan_formatted(line, &targets) {
            sends.push((send.target, send.text));
        }
    }
    assert_eq!(
        sends,
        vec![
            ("#test".to_string(), "hello".to_string()),
            ("#test".to_string(), "world".to_string()),
        ]
    );

    // End of input closes the relay channel; the supervisor observes the
    // closure and proceeds to the single disconnect.
    let mut disconnects = 0;
    match run_relaying(&vec![RelayingInput::RelayClosed]) {
        RelayingEnd::Shutdown => disconnects += 1,
        RelayingEnd::Starved => {}
    }
    assert_eq!(disconnects, 1);
}

#[test]
fn signal_in_either_phase_disconnects_once() {
    // During joining: the signal exits the phase with the one disconnect.
    let end = run_joining(JoinProgress::new(2), &vec![JoiningInput::Signal]);
    let mut disconnects = 0;
    match end {
        JoiningEnd::DisconnectExit(_) => disconnects += 1,
        JoiningEnd::Ready(_) => {
            // Would continue into relaying; not reached in this scenario.
            panic!("joining phase ignored the signal");
        }
        JoiningEnd::Starved(_) => {}
    }
    assert_eq!(disconnects, 1);

    // During relaying: the signal breaks the loop; the shutdown that follows
    // sends the one disconnect.
    let mut disconnects = 0;
    match run_relaying(&vec![
        RelayingInput::RelayEvent(Event::ParseFailure("invalid command".to_string())),
        RelayingInput::Signal,
    ]) {
        RelayingEnd::Shutdown => disconnects += 1,
        RelayingEnd::Starved => {}
    }
    assert_eq!(disconnects, 1);
}
