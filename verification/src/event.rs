//! The closed union of everything a worker can report to the supervisor,
//! together with the explicit mapping functions that turn a fault, already
//! rendered as text at its point of first detection, into an event.

use vstd::prelude::*;

verus! {

/// Everything a worker can report to the supervisor.
///
/// `Connected` and `ChannelJoined` drive the joining phase forward;
/// `ChannelJoinFailed` shrinks the set of required rooms; `PeerQuit` is the
/// connection reader's terminal sentinel; the three failure variants carry a
/// rendered description of the underlying fault.
#[derive(Debug, Clone, PartialEq, Eq)]
pub enum Event {
    Connected,
    ChannelJoined,
    ChannelJoinFailed(String),
    PeerQuit,
    IoFailure(String),
    ProtocolFailure(String),
    ParseFailure(String),
}

/// Maps a fault of the input/output streams (a read or flush error) to its event.
pub fn io_failure(reason: String) -> (e: Event)
    ensures
        e matches Event::IoFailure(s) && s == reason,
{
    Event::IoFailure(reason)
}

/// Maps a fault surfaced by the connection collaborator to its event.
pub fn protocol_failure(reason: String) -> (e: Event)
    ensures
        e matches Event::ProtocolFailure(s) && s == reason,
{
    Event::ProtocolFailure(reason)
}

/// Maps a malformed raw input line to its event.
pub fn parse_failure(reason: String) -> (e: Event)
    ensures
        e matches Event::ParseFailure(s) && s == reason,
{
    Event::ParseFailure(reason)
}

} // verus!
