//! Waiting for the transport: the link is up, or it is lost.
//!
//! Once both transport descriptions are exchanged, a peer waits for one of
//! two things: the data channel opens, or the connection fails for good.
//! Whichever comes first decides, and what comes after changes nothing.
use vstd::prelude::*;

verus! {

/// What the transport reports of a peer connection.
#[derive(Debug, Clone, Copy, PartialEq, Eq, Structural)]
pub enum PeerConnectionState {
    Unspecified,
    New,
    Connecting,
    Connected,
    Disconnected,
    Failed,
    Closed,
}

/// What a waiting peer is told.
#[derive(Debug, Clone, Copy, PartialEq, Eq, Structural)]
pub enum LinkEvent {
    /// The data channel opened.
    DataChannel,
    /// The connection failed for good.
    Done,
}

/// Where a waiting peer stands.
#[derive(Debug, Clone, Copy, PartialEq, Eq, Structural)]
pub enum LinkWait {
    /// Neither event came yet.
    Waiting,
    /// The data channel opened first: there is a channel.
    Linked,
    /// The connection failed first: there is none.
    Lost,
}

/// Whether a reported state ends the wait for a link. A connection that is
/// merely disconnected may come back; only a failed one is given up.
pub fn is_terminal_failure(state: PeerConnectionState) -> (r: bool)
    ensures
        r == (state == PeerConnectionState::Failed),
{
    match state {
        PeerConnectionState::Failed => true,
        _ => false,
    }
}

/// Where a peer stands after an event: the first event decides.
pub open spec fn resolved(wait: LinkWait, event: LinkEvent) -> LinkWait {
    match wait {
        LinkWait::Waiting => match event {
            LinkEvent::DataChannel => LinkWait::Linked,
            LinkEvent::Done => LinkWait::Lost,
        },
        decided => decided,
    }
}

impl LinkWait {
    /// Takes an event.
    pub fn resolve(self, event: LinkEvent) -> (r: LinkWait)
        ensures
            r == resolved(self, event),
    {
        match self {
            LinkWait::Waiting => match event {
                LinkEvent::DataChannel => LinkWait::Linked,
                LinkEvent::Done => LinkWait::Lost,
            },
            decided => decided,
        }
    }

    /// Whether the wait is over, and with a channel: `None` while waiting.
    pub fn outcome(self) -> (r: Option<bool>)
        ensures
            r == match self {
                LinkWait::Waiting => None::<bool>,
                LinkWait::Linked => Some(true),
                LinkWait::Lost => Some(false),
            },
    {
        match self {
            LinkWait::Waiting => None,
            LinkWait::Linked => Some(true),
            LinkWait::Lost => Some(false),
        }
    }
}

/// Where a peer stands after a run of events, taken in order.
pub open spec fn resolved_all(wait: LinkWait, events: Seq<LinkEvent>) -> LinkWait
    decreases events.len(),
{
    if events.len() == 0 {
        wait
    } else {
        resolved_all(resolved(wait, events[0]), events.drop_first())
    }
}

/// The race is decided by the first event: of any run of events, only the
/// first counts.
pub proof fn lemma_first_event_decides(events: Seq<LinkEvent>)
    requires
        events.len() > 0,
    ensures
        resolved_all(LinkWait::Waiting, events) == resolved(LinkWait::Waiting, events[0]),
{
    lemma_decided_stays(resolved(LinkWait::Waiting, events[0]), events.drop_first());
}

/// Once decided, always decided.
pub proof fn lemma_decided_stays(wait: LinkWait, events: Seq<LinkEvent>)
    requires
        wait != LinkWait::Waiting,
    ensures
        resolved_all(wait, events) == wait,
    decreases events.len(),
{
    if events.len() > 0 {
        lemma_decided_stays(wait, events.drop_first());
    }
}

} // verus!
