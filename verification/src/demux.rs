//! The decisions of the listener loop, one function for each event.
//!
//! The loop waits on two sources, close notices and the socket, and takes one
//! event at a time. For a close notice it calls [`on_close_notice`]. For a
//! datagram it calls [`on_datagram`] and does what the answer says. Opening
//! an engine is the caller's work, and its result comes back through
//! [`on_opened`]. A new session is put on the accept queue by [`offer`]. The
//! table is changed by these functions alone.

use crate::ident::{exhausted, is_next_free, next_free};
use crate::peer::PeerAddr;
use crate::table::{after_get_or_create, ConvTable, Resolved, Session};
use crate::wire::{assign_conv, decode_conv, decoded, with_conv};
use vstd::prelude::*;

verus! {

/// How many accepted sessions may wait to be fetched.
pub const ACCEPT_BACKLOG: usize = 1024;

/// How many close notices may wait to be handled.
pub const CLOSE_BACKLOG: usize = 64;

/// The largest datagram that the loop receives.
pub const MAX_DATAGRAM: usize = 65536;

/// Seconds to wait after the socket failed to receive.
pub const RECV_BACKOFF_SECS: u64 = 1;

/// Why a datagram was let go before any session was asked for.
#[derive(Clone, Copy, Debug, PartialEq, Eq, Structural)]
pub enum Discard {
    /// It is shorter than a segment header and names no conversation.
    Runt,
    /// It asks for an identifier and none is left.
    Exhausted,
}

/// What to do with a datagram that has just come in.
#[derive(Clone, Copy, Debug, PartialEq, Eq, Structural)]
pub enum Routing {
    /// Its conversation is live: hand it to that session.
    Forward(u32),
    /// Its conversation is not live: open an engine for it and report to
    /// [`on_opened`].
    Open(u32),
    /// Let it go.
    Drop(Discard),
}

/// What to do once an engine was asked for.
#[derive(Debug)]
pub enum Opening<E> {
    /// A session was created: put it on the accept queue with [`offer`].
    Offer(u32),
    /// The conversation had a session already: hand the datagram to it.
    Forward(u32),
    /// No engine could be opened: let the datagram go. The table is as it was.
    Failed(E),
}

/// What to do once a new session was offered to the accept queue.
#[derive(Clone, Copy, Debug, PartialEq, Eq, Structural)]
pub enum Offering {
    /// The queue took it: hand the datagram to the new session.
    Forward(u32),
    /// The queue was full: the session is gone again, let the datagram go.
    RolledBack(u32),
}

/// Whether the loop goes on.
#[derive(Clone, Copy, Debug, PartialEq, Eq, Structural)]
pub enum Control {
    /// Take the next event.
    Continue,
    /// The close channel is gone, which must not happen: stop the loop.
    Stop,
}

/// Why `accept` gave no session.
#[derive(Clone, Copy, Debug, PartialEq, Eq, Structural)]
pub enum AcceptError {
    /// The loop has ended and no session will come any more.
    Closed,
}

/// A datagram asks for an identifier, and one can be given.
pub open spec fn assigns<H>(sessions: Map<u32, Session<H>>, bytes: Seq<u8>) -> bool {
    decoded(bytes) == Some(0u32) && !exhausted(sessions.dom())
}

/// The conversation that a datagram belongs to once it has been looked at:
/// the one in its header, or, where the header holds zero, a fresh one.
pub open spec fn conv_for<H>(sessions: Map<u32, Session<H>>, cursor: u32, bytes: Seq<u8>) -> u32
    recommends
        decoded(bytes) is Some,
{
    if decoded(bytes) == Some(0u32) {
        next_free(sessions.dom(), cursor)
    } else {
        decoded(bytes)->Some_0
    }
}

/// What [`on_datagram`] answers.
pub open spec fn routed<H>(sessions: Map<u32, Session<H>>, cursor: u32, bytes: Seq<u8>) -> Routing {
    if decoded(bytes) is None {
        Routing::Drop(Discard::Runt)
    } else if decoded(bytes) == Some(0u32) && exhausted(sessions.dom()) {
        Routing::Drop(Discard::Exhausted)
    } else if sessions.contains_key(conv_for(sessions, cursor, bytes)) {
        Routing::Forward(conv_for(sessions, cursor, bytes))
    } else {
        Routing::Open(conv_for(sessions, cursor, bytes))
    }
}

/// The datagram as [`on_datagram`] leaves it: with the fresh identifier in
/// its header where one was given, untouched otherwise.
pub open spec fn stamped<H>(sessions: Map<u32, Session<H>>, cursor: u32, bytes: Seq<u8>) -> Seq<
    u8,
> {
    if assigns(sessions, bytes) {
        with_conv(bytes, next_free(sessions.dom(), cursor))
    } else {
        bytes
    }
}

/// The cursor as [`on_datagram`] leaves it: on the fresh identifier where one
/// was given, unmoved otherwise.
pub open spec fn cursor_after<H>(sessions: Map<u32, Session<H>>, cursor: u32, bytes: Seq<u8>) -> u32 {
    if assigns(sessions, bytes) {
        next_free(sessions.dom(), cursor)
    } else {
        cursor
    }
}

/// Looks at a datagram that has just come in and says where it goes.
///
/// The conversation is read from the header. Zero there means that the peer
/// has none yet: a fresh identifier is taken from the table and written into
/// the header in place. No session is created or removed here.
pub fn on_datagram<H>(table: &mut ConvTable<H>, packet: &mut [u8]) -> (routing: Routing)
    ensures
        routing == routed(old(table)@, old(table).cursor(), old(packet)@),
        final(packet)@ == stamped(old(table)@, old(table).cursor(), old(packet)@),
        final(table)@ == old(table)@,
        final(table).cursor() == cursor_after(old(table)@, old(table).cursor(), old(packet)@),
        routing matches Routing::Open(conv) ==> conv != 0,
        assigns(old(table)@, old(packet)@) ==> routing == Routing::Open(
            next_free(old(table)@.dom(), old(table).cursor()),
        ) && is_next_free(
            old(table)@.dom(),
            old(table).cursor(),
            next_free(old(table)@.dom(), old(table).cursor()),
        ),
{
    let conv: u32 = match decode_conv(packet) {
        None => {
            return Routing::Drop(Discard::Runt);
        },
        Some(0) => match table.try_alloc_conv() {
            None => {
                return Routing::Drop(Discard::Exhausted);
            },
            Some(fresh) => {
                assign_conv(packet, fresh);
                fresh
            },
        },
        Some(conv) => conv,
    };
    if table.contains(conv) {
        Routing::Forward(conv)
    } else {
        Routing::Open(conv)
    }
}

/// What [`on_opened`] answers.
pub open spec fn opening<H, E>(sessions: Map<u32, Session<H>>, conv: u32, opened: Result<H, E>)
    -> Opening<E> {
    if sessions.contains_key(conv) {
        Opening::Forward(conv)
    } else {
        match opened {
            Ok(_) => Opening::Offer(conv),
            Err(e) => Opening::Failed(e),
        }
    }
}

/// Takes what opening an engine for `conv` gave, and creates the session.
///
/// With an engine, `conv` gets a session for `peer` and the session is to be
/// offered to the accept queue. Without one the table stays as it was and the
/// datagram is let go. A conversation that is live keeps its session.
pub fn on_opened<H, E>(table: &mut ConvTable<H>, conv: u32, peer: PeerAddr, opened: Result<H, E>)
    -> (next: Opening<E>)
    ensures
        next == opening(old(table)@, conv, opened),
        final(table)@ == after_get_or_create(old(table)@, conv, peer, opened),
        final(table).cursor() == old(table).cursor(),
{
    match table.get_or_create(conv, peer, opened) {
        Ok(Resolved::Created) => Opening::Offer(conv),
        Ok(Resolved::Existing) => Opening::Forward(conv),
        Err(e) => Opening::Failed(e),
    }
}

/// What [`on_offered`] answers.
pub open spec fn offering(conv: u32, accepted: bool) -> Offering {
    if accepted {
        Offering::Forward(conv)
    } else {
        Offering::RolledBack(conv)
    }
}

/// The table after a new session was offered: as it was where the accept
/// queue took the session, without the session where the queue was full.
pub open spec fn after_offer<H>(sessions: Map<u32, Session<H>>, conv: u32, accepted: bool) -> Map<
    u32,
    Session<H>,
> {
    if accepted {
        sessions
    } else {
        sessions.remove(conv)
    }
}

/// Takes the accept queue's answer to a new session.
///
/// A session that nobody can accept must not stay: where the queue was full,
/// `conv` is closed at once and the datagram is let go.
pub fn on_offered<H>(table: &mut ConvTable<H>, conv: u32, accepted: bool) -> (next: Offering)
    ensures
        next == offering(conv, accepted),
        final(table)@ == after_offer(old(table)@, conv, accepted),
        final(table).cursor() == old(table).cursor(),
        !accepted ==> !final(table)@.contains_key(conv),
{
    if accepted {
        Offering::Forward(conv)
    } else {
        table.close_conv(conv);
        Offering::RolledBack(conv)
    }
}

/// The sending end of a bounded queue of `tokio`.
#[verifier::external_type_specification]
#[verifier::external_body]
#[verifier::reject_recursive_types(T)]
pub struct ExSender<T>(tokio::sync::mpsc::Sender<T>);

/// Puts `item` on the queue with `tokio::sync::mpsc::Sender::try_send`, which
/// never waits, and says whether the queue took it. The queue refuses an item
/// when it is full or when its receiving end is gone; which of the answers
/// comes depends on the receiver, so nothing is claimed of it.
#[verifier::external_body]
fn try_offer<T>(queue: &tokio::sync::mpsc::Sender<T>, item: T) -> (taken: bool) {
    queue.try_send(item).is_ok()
}

/// Puts a new session's item on the accept queue, without waiting, and acts
/// on the queue's answer as [`on_offered`] does: a session that the queue did
/// not take is closed at once.
pub fn offer<H, T>(
    table: &mut ConvTable<H>,
    conv: u32,
    queue: &tokio::sync::mpsc::Sender<T>,
    item: T,
) -> (next: Offering)
    ensures
        next == Offering::Forward(conv) || next == Offering::RolledBack(conv),
        final(table)@ == after_offer(old(table)@, conv, next == Offering::Forward(conv)),
        final(table).cursor() == old(table).cursor(),
        next == Offering::RolledBack(conv) ==> !final(table)@.contains_key(conv),
{
    let taken = try_offer(queue, item);
    on_offered(table, conv, taken)
}

/// The table after a close notice: without the conversation it names. Where
/// the channel is gone there is no notice and the table stays.
pub open spec fn after_close_notice<H>(sessions: Map<u32, Session<H>>, notice: Option<u32>) -> Map<
    u32,
    Session<H>,
> {
    match notice {
        Some(conv) => sessions.remove(conv),
        None => sessions,
    }
}

/// Takes what the close channel gave: the identifier of a conversation that
/// has ended, or nothing where the channel itself is gone.
pub fn on_close_notice<H>(table: &mut ConvTable<H>, notice: Option<u32>) -> (control: Control)
    ensures
        control == (if notice is Some {
            Control::Continue
        } else {
            Control::Stop
        }),
        final(table)@ == after_close_notice(old(table)@, notice),
        final(table).cursor() == old(table).cursor(),
{
    match notice {
        Some(conv) => {
            table.close_conv(conv);
            Control::Continue
        },
        None => Control::Stop,
    }
}

/// What `accept` returns for what the accept queue gave: the next session,
/// or `Closed` where the queue has ended.
pub fn accept_outcome<T>(next: Option<T>) -> (r: Result<T, AcceptError>)
    ensures
        r == (match next {
            Some(item) => Ok::<T, AcceptError>(item),
            None => Err::<T, AcceptError>(AcceptError::Closed),
        }),
{
    match next {
        Some(item) => Ok(item),
        None => Err(AcceptError::Closed),
    }
}

impl AcceptError {
    /// The error in words.
    pub fn message(&self) -> (text: &'static str)
        ensures
            text@ == "accept channel closed unexpectly"@,
    {
        "accept channel closed unexpectly"
    }
}

} // verus!
