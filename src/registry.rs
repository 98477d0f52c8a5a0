use crate::protocol::InputEvent;
use crate::server::{connected, is_connected, ServerState};
use vstd::prelude::*;

verus! {

/// What becomes of an inbound connection.
#[derive(Clone, Copy, Debug, PartialEq, Eq, Structural)]
pub enum Admission {
    /// Start a session on it.
    Accept,
    /// Close it at once, before any protocol byte.
    Reject,
}

/// What becomes of an event taken from the capture side.
#[derive(Clone, Copy, Debug, PartialEq, Eq, Structural)]
pub enum EventRoute {
    /// Hand it to the active session.
    Forward(InputEvent),
    /// Drop it: no connected session takes it.
    Discard,
    /// The capture side is gone: stop the server.
    Stop,
}

/// The server's single session slot.
#[derive(Clone, Copy, Debug)]
pub struct SessionRegistry {
    pub active: bool,
}

/// Where an event that arrives while the active session (if any) is in `session` goes.
pub open spec fn route(active: bool, event: Option<InputEvent>, session: Option<ServerState>) -> EventRoute {
    match event {
        None => EventRoute::Stop,
        Some(e) => if active && session is Some && connected(session->0) {
            EventRoute::Forward(e)
        } else {
            EventRoute::Discard
        },
    }
}

/// The decision on an inbound connection when the slot is (or is not) taken.
pub open spec fn admission(active: bool) -> Admission {
    if active {
        Admission::Reject
    } else {
        Admission::Accept
    }
}

impl SessionRegistry {
    /// A registry with its slot free.
    pub fn new() -> (r: SessionRegistry)
        ensures
            !r.active,
    {
        SessionRegistry { active: false }
    }

    /// Decides on an inbound connection: it takes the slot if the slot is free.
    pub fn on_connection(&mut self) -> (r: Admission)
        ensures
            r == admission(old(self).active),
            final(self).active == slot_after(old(self).active, true),
    {
        if self.active {
            Admission::Reject
        } else {
            self.active = true;
            Admission::Accept
        }
    }

    /// The active session's task has completed: the slot is free again.
    pub fn on_session_finished(&mut self)
        ensures
            final(self).active == slot_after(old(self).active, false),
    {
        self.active = false;
    }

    /// Routes an event (`None` once the capture side is closed) given a snapshot of
    /// the active session's state.
    pub fn route_event(&self, event: Option<InputEvent>, session: Option<ServerState>) -> (r:
        EventRoute)
        ensures
            r == route(self.active, event, session),
    {
        match event {
            None => EventRoute::Stop,
            Some(e) => {
                let forward = match session {
                    Some(state) => self.active && is_connected(state),
                    None => false,
                };
                if forward {
                    EventRoute::Forward(e)
                } else {
                    EventRoute::Discard
                }
            },
        }
    }
}

/// Whether the slot is taken after a connection arrives (`connection`) or the running
/// session finishes (`!connection`): a connection leaves it taken, whether it was
/// accepted or rejected, and a finish frees it.
pub open spec fn slot_after(active: bool, connection: bool) -> bool {
    connection
}

/// Whether the slot is taken after `events`, starting from `active`.
pub open spec fn slot_after_all(active: bool, events: Seq<bool>) -> bool
    decreases events.len(),
{
    if events.len() == 0 {
        active
    } else {
        slot_after(slot_after_all(active, events.drop_last()), events.last())
    }
}

/// How many sessions run after `events`, starting from `active`: each accepted
/// connection starts one, each finish ends the one that ran.
pub open spec fn sessions_running(active: bool, events: Seq<bool>) -> int
    decreases events.len(),
{
    if events.len() == 0 {
        if active {
            1
        } else {
            0
        }
    } else {
        let before = sessions_running(active, events.drop_last());
        let was_active = slot_after_all(active, events.drop_last());
        if events.last() {
            if admission(was_active) == Admission::Accept {
                before + 1
            } else {
                before
            }
        } else if before > 0 {
            before - 1
        } else {
            before
        }
    }
}

/// The server admits at most one session at a time: over any run of connections and
/// finished sessions, the connections that arrive while a session runs are rejected,
/// at most one session runs, and once it has finished the next connection is accepted.
pub proof fn lemma_single_session(active: bool, events: Seq<bool>)
    ensures
        sessions_running(active, events) == if slot_after_all(active, events) {
            1int
        } else {
            0int
        },
        admission(slot_after_all(active, events)) == Admission::Accept <==> !slot_after_all(
            active,
            events,
        ),
        admission(slot_after_all(active, events.push(false))) == Admission::Accept,
        admission(slot_after_all(active, events.push(true))) == Admission::Reject,
    decreases events.len(),
{
    assert(events.push(false).drop_last() =~= events);
    assert(events.push(true).drop_last() =~= events);
    if events.len() > 0 {
        lemma_single_session(active, events.drop_last());
    }
}

/// An event submitted while the active session is (or is not) in `session`.
pub open spec fn is_relayed(sub: (InputEvent, Option<ServerState>)) -> bool {
    sub.1 is Some && connected(sub.1->0)
}

/// The events that the registry forwards, in order, for a run of submissions made
/// while a session holds the slot.
pub open spec fn forwarded(subs: Seq<(InputEvent, Option<ServerState>)>) -> Seq<InputEvent>
    decreases subs.len(),
{
    if subs.len() == 0 {
        Seq::empty()
    } else {
        let before = forwarded(subs.drop_last());
        match route(true, Some(subs.last().0), subs.last().1) {
            EventRoute::Forward(e) => before.push(e),
            _ => before,
        }
    }
}

/// Events submitted while there is no session or while it is handshaking are dropped;
/// those submitted while it is connected are forwarded exactly once each, in the
/// order of submission.
pub proof fn lemma_events_relayed_in_order(subs: Seq<(InputEvent, Option<ServerState>)>)
    ensures
        forwarded(subs) == subs.filter(|sub: (InputEvent, Option<ServerState>)| is_relayed(sub)).map_values(
            |sub: (InputEvent, Option<ServerState>)| sub.0,
        ),
    decreases subs.len(),
{
    let pred = |sub: (InputEvent, Option<ServerState>)| is_relayed(sub);
    let f = |sub: (InputEvent, Option<ServerState>)| sub.0;
    reveal(Seq::filter);
    if subs.len() > 0 {
        lemma_events_relayed_in_order(subs.drop_last());
        let prev = subs.drop_last().filter(pred);
        if pred(subs.last()) {
            assert(prev.push(subs.last()).map_values(f) =~= prev.map_values(f).push(
                subs.last().0,
            ));
        }
    } else {
        assert(subs.filter(pred).map_values(f) =~= Seq::<InputEvent>::empty());
    }
}

} // verus!
