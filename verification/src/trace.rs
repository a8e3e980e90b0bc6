//! A listener over time: what a sequence of events does to the table, and
//! which datagrams each session is handed.
//!
//! The functions of [`crate::demux`] decide one step. Here the steps are put
//! together: an event is a close notice or a datagram with what the caller's
//! work on it gave, and a run is a sequence of events taken one after another.

use crate::demux::{
    after_close_notice, after_offer, assigns, conv_for, cursor_after, offering, opening, routed,
    stamped, Offering, Opening, Routing,
};
use crate::ident::{exhausted, lemma_next_free, next_free};
use crate::peer::PeerAddr;
use crate::table::{after_get_or_create, Session};
use crate::wire::{decoded, lemma_written_conv_is_read};
use vstd::prelude::*;

verus! {

/// What the loop knows between two events: the live sessions and the cursor
/// of the identifier search.
pub struct Listener<H> {
    pub sessions: Map<u32, Session<H>>,
    pub cursor: u32,
}

/// A datagram together with what the caller's work on it gives: the engine
/// that is opened if the datagram needs one, and whether the accept queue
/// takes the session if one is created.
pub struct Arrival<H, E> {
    pub bytes: Seq<u8>,
    pub peer: PeerAddr,
    pub opened: Result<H, E>,
    pub accepted: bool,
}

/// One event of the loop.
pub enum Event<H, E> {
    /// A close notice for this conversation.
    Closed(u32),
    /// A datagram.
    Datagram(Arrival<H, E>),
}

/// The session that a datagram is handed to, if it is not let go: the three
/// steps of [`crate::demux`] one after another.
pub open spec fn target<H, E>(at: Listener<H>, arrival: Arrival<H, E>) -> Option<u32> {
    match routed(at.sessions, at.cursor, arrival.bytes) {
        Routing::Forward(conv) => Some(conv),
        Routing::Drop(_) => None,
        Routing::Open(conv) => match opening(at.sessions, conv, arrival.opened) {
            Opening::Forward(conv) => Some(conv),
            Opening::Failed(_) => None,
            Opening::Offer(conv) => match offering(conv, arrival.accepted) {
                Offering::Forward(conv) => Some(conv),
                Offering::RolledBack(_) => None,
            },
        },
    }
}

/// The listener after a datagram.
pub open spec fn after_arrival<H, E>(at: Listener<H>, arrival: Arrival<H, E>) -> Listener<H> {
    let cursor = cursor_after(at.sessions, at.cursor, arrival.bytes);
    match routed(at.sessions, at.cursor, arrival.bytes) {
        Routing::Open(conv) => {
            let created = after_get_or_create(at.sessions, conv, arrival.peer, arrival.opened);
            match opening(at.sessions, conv, arrival.opened) {
                Opening::Offer(_) => Listener {
                    sessions: after_offer(created, conv, arrival.accepted),
                    cursor,
                },
                _ => Listener { sessions: created, cursor },
            }
        },
        _ => Listener { sessions: at.sessions, cursor },
    }
}

/// The listener after one event.
pub open spec fn after_event<H, E>(at: Listener<H>, event: Event<H, E>) -> Listener<H> {
    match event {
        Event::Closed(conv) => Listener {
            sessions: after_close_notice(at.sessions, Some(conv)),
            cursor: at.cursor,
        },
        Event::Datagram(arrival) => after_arrival(at, arrival),
    }
}

/// The listener after a run of events.
pub open spec fn after_events<H, E>(at: Listener<H>, events: Seq<Event<H, E>>) -> Listener<H>
    decreases events.len(),
{
    if events.len() == 0 {
        at
    } else {
        after_event(after_events(at, events.drop_last()), events.last())
    }
}

/// What one event hands to the session of `conv`: the datagram, as it stands
/// after the header was looked at, or nothing.
pub open spec fn handed<H, E>(at: Listener<H>, event: Event<H, E>, conv: u32) -> Seq<Seq<u8>> {
    match event {
        Event::Datagram(arrival) if target(at, arrival) == Some(conv) => seq![
            stamped(at.sessions, at.cursor, arrival.bytes),
        ],
        _ => Seq::empty(),
    }
}

/// The datagrams that a run hands to the session of `conv`, in the order in
/// which the session gets them.
pub open spec fn inputs_of<H, E>(at: Listener<H>, events: Seq<Event<H, E>>, conv: u32) -> Seq<
    Seq<u8>,
>
    decreases events.len(),
{
    if events.len() == 0 {
        Seq::empty()
    } else {
        inputs_of(at, events.drop_last(), conv) + handed(
            after_events(at, events.drop_last()),
            events.last(),
            conv,
        )
    }
}

/// The datagrams of a run whose header names `conv`, in the order in which
/// the socket gave them.
pub open spec fn addressed_to<H, E>(events: Seq<Event<H, E>>, conv: u32) -> Seq<Seq<u8>>
    decreases events.len(),
{
    if events.len() == 0 {
        Seq::empty()
    } else {
        addressed_to(events.drop_last(), conv) + (match events.last() {
            Event::Datagram(arrival) if decoded(arrival.bytes) == Some(conv) => seq![
                arrival.bytes,
            ],
            _ => Seq::empty(),
        })
    }
}

/// No event of the run is a close notice for `conv`.
pub open spec fn never_closed<H, E>(events: Seq<Event<H, E>>, conv: u32) -> bool {
    forall|i: int| 0 <= i < events.len() ==> #[trigger] events[i] != Event::<H, E>::Closed(conv)
}

/// A session ends by a close notice alone: a conversation that is live and
/// not closed during a run is live after it, with the session and the peer
/// that it had.
pub proof fn lemma_stays_live<H, E>(at: Listener<H>, events: Seq<Event<H, E>>, conv: u32)
    requires
        at.sessions.contains_key(conv),
        never_closed(events, conv),
    ensures
        after_events(at, events).sessions.contains_key(conv),
        after_events(at, events).sessions[conv] == at.sessions[conv],
    decreases events.len(),
{
    if events.len() > 0 {
        let before = events.drop_last();
        assert forall|i: int| 0 <= i < before.len() implies #[trigger] before[i] != Event::<
            H,
            E,
        >::Closed(conv) by {
            assert(before[i] == events[i]);
        }
        lemma_stays_live(at, before, conv);
        assert(events.last() == events[events.len() - 1]);
    }
}

/// A session gets its datagrams in the order in which the socket gave them:
/// what it was handed by the first `k` events of a run is the start of what
/// it is handed by the whole run.
pub proof fn lemma_inputs_keep_order<H, E>(
    at: Listener<H>,
    events: Seq<Event<H, E>>,
    k: int,
    conv: u32,
)
    requires
        0 <= k <= events.len(),
    ensures
        inputs_of(at, events.take(k), conv).is_prefix_of(inputs_of(at, events, conv)),
    decreases events.len(),
{
    if k == events.len() {
        assert(events.take(k) =~= events);
    } else {
        let before = events.drop_last();
        lemma_inputs_keep_order(at, before, k, conv);
        assert(before.take(k) =~= events.take(k));
        let early = inputs_of(at, events.take(k), conv);
        let middle = inputs_of(at, before, conv);
        let whole = inputs_of(at, events, conv);
        assert(middle.is_prefix_of(whole));
        assert(early =~= whole.subrange(0, early.len() as int)) by {
            assert(early =~= middle.subrange(0, early.len() as int));
        }
    }
}

/// A live conversation is handed every datagram that names it, each one
/// unchanged, in the order in which the socket gave them, for as long as it
/// is not closed.
pub proof fn lemma_live_session_gets_all<H, E>(
    at: Listener<H>,
    events: Seq<Event<H, E>>,
    conv: u32,
)
    requires
        conv != 0,
        at.sessions.contains_key(conv),
        never_closed(events, conv),
    ensures
        inputs_of(at, events, conv) == addressed_to(events, conv),
    decreases events.len(),
{
    if events.len() > 0 {
        let before = events.drop_last();
        assert forall|i: int| 0 <= i < before.len() implies #[trigger] before[i] != Event::<
            H,
            E,
        >::Closed(conv) by {
            assert(before[i] == events[i]);
        }
        lemma_live_session_gets_all(at, before, conv);
        lemma_stays_live(at, before, conv);
        let now = after_events(at, before);
        match events.last() {
            Event::Datagram(arrival) => {
                if assigns(now.sessions, arrival.bytes) {
                    lemma_next_free(now.sessions.dom(), now.cursor);
                }
            },
            Event::Closed(_) => {},
        }
    }
}

/// A datagram that asks for an identifier gets one that is not zero and not
/// live, written into its header, for as long as one is left.
pub proof fn lemma_fresh_identifier<H, E>(at: Listener<H>, arrival: Arrival<H, E>)
    requires
        decoded(arrival.bytes) == Some(0u32),
        !exhausted(at.sessions.dom()),
    ensures
        routed(at.sessions, at.cursor, arrival.bytes) == Routing::Open(
            next_free(at.sessions.dom(), at.cursor),
        ),
        next_free(at.sessions.dom(), at.cursor) != 0,
        !at.sessions.contains_key(next_free(at.sessions.dom(), at.cursor)),
        decoded(stamped(at.sessions, at.cursor, arrival.bytes)) == Some(
            next_free(at.sessions.dom(), at.cursor),
        ),
        after_arrival(at, arrival).cursor == next_free(at.sessions.dom(), at.cursor),
{
    lemma_next_free(at.sessions.dom(), at.cursor);
    lemma_written_conv_is_read(arrival.bytes, next_free(at.sessions.dom(), at.cursor));
}

/// Two datagrams that ask for an identifier get different ones, if the first
/// one's session is still there when the second comes.
pub proof fn lemma_fresh_identifiers_differ<H, E>(
    at: Listener<H>,
    first: Arrival<H, E>,
    between: Seq<Event<H, E>>,
    second: Arrival<H, E>,
)
    requires
        decoded(first.bytes) == Some(0u32),
        decoded(second.bytes) == Some(0u32),
        target(at, first) is Some,
        never_closed(between, target(at, first)->Some_0),
        !exhausted(after_events(after_arrival(at, first), between).sessions.dom()),
    ensures
        target(at, first) == Some(conv_for(at.sessions, at.cursor, first.bytes)),
        conv_for(at.sessions, at.cursor, first.bytes) != conv_for(
            after_events(after_arrival(at, first), between).sessions,
            after_events(after_arrival(at, first), between).cursor,
            second.bytes,
        ),
{
    let one = conv_for(at.sessions, at.cursor, first.bytes);
    let then = after_arrival(at, first);
    assert(then.sessions.contains_key(one));
    lemma_stays_live(then, between, one);
    let later = after_events(then, between);
    lemma_next_free(later.sessions.dom(), later.cursor);
}

/// Closing twice is closing once, and closing what is not live changes
/// nothing.
pub proof fn lemma_close_is_idempotent<H, E>(at: Listener<H>, conv: u32)
    ensures
        after_event(after_event(at, Event::<H, E>::Closed(conv)), Event::<H, E>::Closed(conv))
            == after_event(at, Event::<H, E>::Closed(conv)),
        !after_event(at, Event::<H, E>::Closed(conv)).sessions.contains_key(conv),
        !at.sessions.contains_key(conv) ==> after_event(at, Event::<H, E>::Closed(conv)) == at,
{
    let once = after_event(at, Event::<H, E>::Closed(conv));
    let twice = after_event(once, Event::<H, E>::Closed(conv));
    assert(twice.sessions =~= once.sessions);
    if !at.sessions.contains_key(conv) {
        assert(once.sessions =~= at.sessions);
    }
}

/// A session that the accept queue does not take leaves nothing behind: the
/// table holds the sessions that it held before the datagram came, and none
/// for the datagram's conversation.
pub proof fn lemma_full_queue_leaves_no_session<H, E>(at: Listener<H>, arrival: Arrival<H, E>)
    requires
        !arrival.accepted,
        routed(at.sessions, at.cursor, arrival.bytes) is Open,
    ensures
        target(at, arrival) is None,
        after_arrival(at, arrival).sessions == at.sessions,
        !after_arrival(at, arrival).sessions.contains_key(
            conv_for(at.sessions, at.cursor, arrival.bytes),
        ),
{
    let conv = conv_for(at.sessions, at.cursor, arrival.bytes);
    assert(after_arrival(at, arrival).sessions =~= at.sessions);
}

} // verus!
