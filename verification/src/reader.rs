//! The connection reader's classification of inbound protocol messages.
//!
//! The reader owns the live connection's inbound message sequence. What the
//! classification reads of a message — its kind, the speaking parties, the
//! text, a status-response code and its payload — is modelled here as plain
//! values; the surrounding process extracts them from the collaborator's
//! message type. Each inbound message yields at most one event for the
//! supervisor and at most one formatted line for the output stream.

use vstd::prelude::*;
use vstd::string::StringExecFns;

use crate::event::Event;

verus! {

/// The status-response codes the reader distinguishes. The five denial codes
/// are the ways a server rejects a room join; the two message-of-the-day
/// codes mark the end of the handshake. Every other code is `Unclassified`
/// and deliberately yields no event, which keeps unknown codes harmless.
#[derive(Debug, Clone, Copy, PartialEq, Eq, Structural)]
pub enum ResponseCode {
    ChannelIsFull,
    InviteOnlyChan,
    BannedFromChan,
    BadChannelKey,
    NoSuchChannel,
    EndOfMotd,
    NoMotd,
    Unclassified,
}

/// What the classification reads of one inbound message.
#[derive(Debug, Clone, PartialEq, Eq)]
pub enum IncomingKind {
    /// A room-join notification.
    Join,
    /// A direct or room text message.
    Privmsg { sender: Option<String>, target: String, text: String },
    /// A notice, printed exactly as a text message.
    Notice { sender: Option<String>, target: String, text: String },
    /// A disconnect notice from the peer.
    Quit,
    /// A numeric status response with its argument list and trailing text.
    Response { code: ResponseCode, args: Vec<String>, suffix: Option<String> },
    /// Anything else; deliberately dropped.
    Other,
}

/// What the reader does with one inbound message: at most one event for the
/// supervisor, and at most one formatted line for the output stream.
#[derive(Debug, Clone, PartialEq, Eq)]
pub struct ReaderStep {
    pub event: Option<Event>,
    pub print: Option<String>,
}

/// A room-join rejection: the room is full, invite-only, the client is
/// banned, the key was wrong, or no such room exists.
pub open spec fn is_join_denial(code: ResponseCode) -> bool {
    ||| code is ChannelIsFull
    ||| code is InviteOnlyChan
    ||| code is BannedFromChan
    ||| code is BadChannelKey
    ||| code is NoSuchChannel
}

/// The end of the handshake: the message of the day ended, or there is none.
pub open spec fn announces_connected(code: ResponseCode) -> bool {
    code is EndOfMotd || code is NoMotd
}

/// The label a message is printed under: the sender's name, or a placeholder
/// when the message carries no source.
pub open spec fn sender_label(sender: Option<String>) -> Seq<char> {
    match sender {
        Some(s) => s@,
        None => "* "@,
    }
}

/// The line printed for a text message: `sender->target: text`.
pub open spec fn formatted_line(sender: Option<String>, target: String, text: String) -> Seq<char> {
    sender_label(sender) + "->"@ + target@ + ": "@ + text@
}

/// The human-readable reason reported for a rejected room join: the room
/// name (the second response argument, when present), a separator, and the
/// response's trailing text.
pub open spec fn join_fail_reason(args: Seq<String>, suffix: Option<String>) -> Seq<char> {
    (if args.len() >= 2 {
        args[1]@
    } else {
        Seq::<char>::empty()
    }) + ": "@ + (match suffix {
        Some(s) => s@,
        None => Seq::<char>::empty(),
    })
}

/// Builds the printed form of a text message.
fn format_incoming_text(sender: Option<String>, target: String, text: String) -> (r: String)
    ensures
        r@ == formatted_line(sender, target, text),
{
    let mut out: String = match sender {
        Some(s) => s,
        None => "* ".to_owned(),
    };
    out.append("->");
    out.append(target.as_str());
    out.append(": ");
    out.append(text.as_str());
    out
}

/// Builds the reason reported for a rejected room join.
fn build_join_fail_reason(args: &Vec<String>, suffix: &Option<String>) -> (r: String)
    ensures
        r@ == join_fail_reason(args@, *suffix),
{
    let mut out: String = if args.len() >= 2 {
        args[1].clone()
    } else {
        String::new()
    };
    out.append(": ");
    match suffix {
        Some(s) => out.append(s.as_str()),
        None => {},
    }
    out
}

/// Classifies one inbound message.
///
/// Join and quit notifications become their events; a join-denial response
/// becomes a join-failure event carrying a readable reason; a handshake-end
/// response becomes the connected event. A text message is printed as
/// `sender->target: text` unless raw echo or quiet mode suppresses the
/// formatted output; raw echo itself (the untouched wire line) is written by
/// the process around this library, which holds the wire form.
pub fn classify_incoming(msg: IncomingKind, raw_echo: bool, quiet: bool) -> (r: ReaderStep)
    ensures
        match msg {
            IncomingKind::Join => {
                &&& r.event matches Some(e) && e is ChannelJoined
                &&& r.print is None
            },
            IncomingKind::Privmsg { sender, target, text } => {
                &&& r.event is None
                &&& if !raw_echo && !quiet {
                    r.print matches Some(p) && p@ == formatted_line(sender, target, text)
                } else {
                    r.print is None
                }
            },
            IncomingKind::Notice { sender, target, text } => {
                &&& r.event is None
                &&& if !raw_echo && !quiet {
                    r.print matches Some(p) && p@ == formatted_line(sender, target, text)
                } else {
                    r.print is None
                }
            },
            IncomingKind::Quit => {
                &&& r.event matches Some(e) && e is PeerQuit
                &&& r.print is None
            },
            IncomingKind::Response { code, args, suffix } => {
                &&& r.print is None
                &&& if is_join_denial(code) {
                    r.event matches Some(e) && e matches Event::ChannelJoinFailed(s)
                        && s@ == join_fail_reason(args@, suffix)
                } else if announces_connected(code) {
                    r.event matches Some(e) && e is Connected
                } else {
                    r.event is None
                }
            },
            IncomingKind::Other => r.event is None && r.print is None,
        },
{
    match msg {
        IncomingKind::Join => ReaderStep { event: Some(Event::ChannelJoined), print: None },
        IncomingKind::Privmsg { sender, target, text } => {
            let print = if !raw_echo && !quiet {
                Some(format_incoming_text(sender, target, text))
            } else {
                None
            };
            ReaderStep { event: None, print }
        },
        IncomingKind::Notice { sender, target, text } => {
            let print = if !raw_echo && !quiet {
                Some(format_incoming_text(sender, target, text))
            } else {
                None
            };
            ReaderStep { event: None, print }
        },
        IncomingKind::Quit => ReaderStep { event: Some(Event::PeerQuit), print: None },
        IncomingKind::Response { code, args, suffix } => {
            let event = match code {
                ResponseCode::ChannelIsFull
                | ResponseCode::InviteOnlyChan
                | ResponseCode::BannedFromChan
                | ResponseCode::BadChannelKey
                | ResponseCode::NoSuchChannel => Some(
                    Event::ChannelJoinFailed(build_join_fail_reason(&args, &suffix)),
                ),
                ResponseCode::EndOfMotd | ResponseCode::NoMotd => Some(Event::Connected),
                ResponseCode::Unclassified => None,
            };
            ReaderStep { event, print: None }
        },
        IncomingKind::Other => ReaderStep { event: None, print: None },
    }
}

/// How the connection reader ended: the inbound sequence closed, or a
/// transport fault surfaced.
#[derive(Debug, Clone, PartialEq, Eq)]
pub enum StreamEnd {
    Closed,
    Failed(String),
}

/// The reader's terminal report: the transport fault, if any, followed
/// unconditionally by the peer-quit sentinel, so the supervisor's wait can
/// never be left hanging on a dead connection.
pub fn terminal_events(end: StreamEnd) -> (r: Vec<Event>)
    ensures
        match end {
            StreamEnd::Closed => r@.len() == 1 && r@[0] == Event::PeerQuit,
            StreamEnd::Failed(reason) => {
                &&& r@.len() == 2
                &&& r@[0] == Event::ProtocolFailure(reason)
                &&& r@[1] == Event::PeerQuit
            },
        },
{
    let mut out: Vec<Event> = Vec::new();
    match end {
        StreamEnd::Closed => {},
        StreamEnd::Failed(reason) => out.push(Event::ProtocolFailure(reason)),
    }
    out.push(Event::PeerQuit);
    out
}

} // verus!
