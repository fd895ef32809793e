//! The input relay's per-line decisions.
//!
//! The relay owns the input stream and turns each line into outbound sends.
//! In formatted mode a line becomes one text-message send per destination,
//! in list order, best effort: a failed send is reported and the remaining
//! destinations are still attempted. In raw mode a line is terminated,
//! parsed as a wire-protocol message, and either handed over for sending or
//! skipped with a parse-failure event. The blocking reads and the sends
//! themselves are the surrounding process's work.

use vstd::prelude::*;
use vstd::string::StringExecFns;

use crate::event::Event;

verus! {

/// The collaborator's wire-protocol message, carried opaquely from the
/// parser to the send.
#[verifier::external_type_specification]
#[verifier::external_body]
pub struct ExMessage(irc::proto::Message);

/// Whether the collaborator's parser accepts a wire line.
pub uninterp spec fn wire_parses(line: Seq<char>) -> bool;

/// Relies on the `FromStr` impl of `irc::proto::Message`: whether a line
/// parses, and into what, is a function of the line's characters alone.
#[verifier::external_body]
fn parse_wire_line(line: &str) -> (r: Result<irc::proto::Message, String>)
    ensures
        r is Ok <==> wire_parses(line@),
{
    match <irc::proto::Message as std::str::FromStr>::from_str(line) {
        Ok(m) => Ok(m),
        Err(e) => Err(format!("{}", e)),
    }
}

/// The wire line terminator.
pub open spec fn crlf() -> Seq<char> {
    "\r\n"@
}

/// Appends the wire line terminator to an input line.
pub fn crlf_terminate(line: &str) -> (r: String)
    ensures
        r@ == line@ + crlf(),
{
    let mut out: String = line.to_owned();
    out.append("\r\n");
    out
}

/// Whether a raw-mode input line is sent: it parses once terminated.
pub open spec fn raw_line_sent(line: Seq<char>) -> bool {
    wire_parses(line + crlf())
}

/// The fate of one raw-mode input line.
pub enum RawLineStep {
    /// The terminated line parsed; send this message as-is.
    Send(irc::proto::Message),
    /// The line did not parse; report this event and drop the line.
    Skip(Event),
}

/// Raw mode handling of one input line: the line terminator is appended,
/// the result parsed, and the line either handed over for sending or
/// skipped — not retried — with a parse-failure event.
pub fn relay_raw_line(line: &str) -> (r: RawLineStep)
    ensures
        r is Send <==> raw_line_sent(line@),
        r matches RawLineStep::Skip(e) ==> e matches Event::ParseFailure(_),
{
    let terminated = crlf_terminate(line);
    match parse_wire_line(terminated.as_str()) {
        Ok(m) => RawLineStep::Send(m),
        Err(reason) => RawLineStep::Skip(Event::ParseFailure(reason)),
    }
}

/// One planned outbound text-message send.
#[derive(Debug, Clone, PartialEq, Eq)]
pub struct OutboundSend {
    pub target: String,
    pub text: String,
}

/// Formatted mode: one line becomes one send per destination, to every
/// destination in the target list, in list order — however many of them
/// later fail.
pub fn plan_formatted(line: &str, targets: &Vec<String>) -> (r: Vec<OutboundSend>)
    ensures
        r@.len() == targets@.len(),
        forall|i: int|
            0 <= i < r@.len() ==> (#[trigger] r@[i]).target@ == targets@[i]@
                && r@[i].text@ == line@,
{
    let mut out: Vec<OutboundSend> = Vec::new();
    let mut i: usize = 0;
    while i < targets.len()
        invariant
            i <= targets@.len(),
            out@.len() == i,
            forall|j: int|
                0 <= j < i ==> (#[trigger] out@[j]).target@ == targets@[j]@
                    && out@[j].text@ == line@,
        decreases targets@.len() - i,
    {
        out.push(OutboundSend { target: targets[i].clone(), text: line.to_owned() });
        i = i + 1;
    }
    out
}

/// The event one send's outcome yields: nothing on success, a
/// protocol-failure event carrying the rendered fault otherwise. The relay
/// reports the failure and carries on with the remaining destinations.
pub fn send_outcome_event(error: Option<String>) -> (r: Option<Event>)
    ensures
        match error {
            Some(reason) => r matches Some(e) && e == Event::ProtocolFailure(reason),
            None => r is None,
        },
{
    match error {
        Some(reason) => Some(Event::ProtocolFailure(reason)),
        None => None,
    }
}

/// The events one line's formatted fan-out emits, given the per-destination
/// outcomes: one protocol-failure event per failed send, in send order.
pub open spec fn events_of_outcomes(outcomes: Seq<Option<String>>) -> Seq<Event>
    decreases outcomes.len(),
{
    if outcomes.len() == 0 {
        Seq::<Event>::empty()
    } else {
        (match outcomes[0] {
            Some(reason) => seq![Event::ProtocolFailure(reason)],
            None => Seq::<Event>::empty(),
        }) + events_of_outcomes(outcomes.drop_first())
    }
}

/// A line whose sends all succeed emits no event.
pub proof fn lemma_all_success_no_events(outcomes: Seq<Option<String>>)
    requires
        forall|j: int| 0 <= j < outcomes.len() ==> outcomes[j] is None,
    ensures
        events_of_outcomes(outcomes).len() == 0,
    decreases outcomes.len(),
{
    if outcomes.len() > 0 {
        lemma_all_success_no_events(outcomes.drop_first());
    }
}

/// When exactly one of a line's sends fails, the fan-out emits exactly one
/// event — the protocol failure of the failed destination — while the other
/// destinations were still attempted (the plan covers every destination
/// whatever the outcomes).
pub proof fn lemma_single_failure_isolated(outcomes: Seq<Option<String>>, i: int)
    requires
        0 <= i < outcomes.len(),
        outcomes[i] is Some,
        forall|j: int| 0 <= j < outcomes.len() && j != i ==> outcomes[j] is None,
    ensures
        events_of_outcomes(outcomes).len() == 1,
        events_of_outcomes(outcomes)[0] == Event::ProtocolFailure(outcomes[i]->0),
    decreases outcomes.len(),
{
    if i == 0 {
        lemma_all_success_no_events(outcomes.drop_first());
    } else {
        assert(outcomes[0] is None);
        lemma_single_failure_isolated(outcomes.drop_first(), i - 1);
    }
}

/// The raw-mode lines actually sent, in order: the well-formed ones.
pub open spec fn raw_sent_lines(lines: Seq<Seq<char>>) -> Seq<Seq<char>>
    decreases lines.len(),
{
    if lines.len() == 0 {
        Seq::<Seq<char>>::empty()
    } else {
        let rest = raw_sent_lines(lines.drop_first());
        if raw_line_sent(lines[0]) {
            seq![lines[0]] + rest
        } else {
            rest
        }
    }
}

/// An unparsable raw-mode line is skipped without affecting any other line:
/// what is sent is exactly what would be sent with that line left out, so a
/// following well-formed line still goes through.
pub proof fn lemma_raw_bad_line_skipped(lines: Seq<Seq<char>>, i: int)
    requires
        0 <= i < lines.len(),
        !raw_line_sent(lines[i]),
    ensures
        raw_sent_lines(lines) == raw_sent_lines(lines.remove(i)),
    decreases lines.len(),
{
    if i == 0 {
        assert(lines.remove(0) =~= lines.drop_first());
    } else {
        lemma_raw_bad_line_skipped(lines.drop_first(), i - 1);
        assert(lines.remove(i).drop_first() =~= lines.drop_first().remove(i - 1));
        assert(lines.remove(i)[0] == lines[0]);
    }
}

/// Every well-formed raw-mode line is sent.
pub proof fn lemma_raw_good_line_sent(lines: Seq<Seq<char>>, j: int)
    requires
        0 <= j < lines.len(),
        raw_line_sent(lines[j]),
    ensures
        raw_sent_lines(lines).contains(lines[j]),
    decreases lines.len(),
{
    if j == 0 {
        assert(raw_sent_lines(lines)[0] == lines[0]);
    } else {
        lemma_raw_good_line_sent(lines.drop_first(), j - 1);
        let rest = raw_sent_lines(lines.drop_first());
        let k = choose|k: int| 0 <= k < rest.len() && rest[k] == lines[j];
        if raw_line_sent(lines[0]) {
            assert(raw_sent_lines(lines)[k + 1] == lines[j]);
        } else {
            assert(raw_sent_lines(lines)[k] == lines[j]);
        }
    }
}

} // verus!
