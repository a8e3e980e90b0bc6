//! The conversation table: which identifiers are live, and the session of each.
//!
//! The table is the one authority on identifiers. It hands out fresh ones,
//! creates a session the first time an identifier is seen, and forgets a
//! session when its conversation is closed.

use crate::ident::{
    exhausted, gap, is_next_free, lemma_exhausted_by_count, lemma_next_free, next_free, successor,
    LAST_CONV,
};
use crate::peer::PeerAddr;
use std::collections::HashMap;
use vstd::prelude::*;

verus! {

broadcast use vstd::std_specs::hash::group_hash_axioms;

/// One live conversation: the peer it was created for, and the caller's
/// handle to the engine that speaks the protocol. The table files it under
/// its conversation identifier.
#[derive(Debug)]
pub struct Session<H> {
    pub peer: PeerAddr,
    pub handle: H,
}

/// How a lookup-or-create ended.
#[derive(Clone, Copy, Debug, PartialEq, Eq, Structural)]
pub enum Resolved {
    /// The identifier was live already; its session is the one found.
    Existing,
    /// The identifier was not live; a session was created for it.
    Created,
}

/// The sessions of one socket, by conversation identifier.
#[verifier::reject_recursive_types(H)]
pub struct ConvTable<H> {
    sessions: HashMap<u32, Session<H>>,
    next_free_conv: u32,
}

impl<H> View for ConvTable<H> {
    type V = Map<u32, Session<H>>;

    closed spec fn view(&self) -> Map<u32, Session<H>> {
        self.sessions@
    }
}

impl<H> ConvTable<H> {
    /// The identifier that was handed out last; the search for the next one
    /// starts behind it.
    pub closed spec fn cursor(self) -> u32 {
        self.next_free_conv
    }

    /// An empty table.
    pub fn new() -> (table: Self)
        ensures
            table@ == Map::<u32, Session<H>>::empty(),
            table.cursor() == 0,
    {
        ConvTable { sessions: HashMap::new(), next_free_conv: 0 }
    }

    /// The number of live sessions.
    pub fn len(&self) -> (n: usize)
        ensures
            n == self@.len(),
    {
        self.sessions.len()
    }

    /// Whether no session is live.
    pub fn is_empty(&self) -> (empty: bool)
        ensures
            empty == (self@.len() == 0),
    {
        self.sessions.len() == 0
    }

    /// Whether `conv` is live.
    pub fn contains(&self, conv: u32) -> (live: bool)
        ensures
            live == self@.contains_key(conv),
    {
        self.sessions.contains_key(&conv)
    }

    /// The session of `conv`, if it is live.
    pub fn session(&self, conv: u32) -> (found: Option<&Session<H>>)
        ensures
            match found {
                Some(session) => self@.contains_key(conv) && *session == self@[conv],
                None => !self@.contains_key(conv),
            },
    {
        self.sessions.get(&conv)
    }

    /// Whether every identifier is live, so that none can be handed out.
    pub fn is_exhausted(&self) -> (full: bool)
        ensures
            full == exhausted(self@.dom()),
    {
        proof {
            lemma_exhausted_by_count(self@.dom());
        }
        let live: usize = self.sessions.len();
        if self.sessions.contains_key(&0) {
            live > LAST_CONV as usize
        } else {
            live >= LAST_CONV as usize
        }
    }

    /// Hands out a fresh identifier: the first one behind the cursor that is
    /// not live. It is never zero. The cursor moves on to it; the sessions
    /// stay as they are, so the identifier is not live until a session is
    /// created for it.
    ///
    /// Some identifier must be left: see [`ConvTable::try_alloc_conv`].
    pub fn alloc_conv(&mut self) -> (conv: u32)
        requires
            !exhausted(old(self)@.dom()),
        ensures
            is_next_free(old(self)@.dom(), old(self).cursor(), conv),
            conv == next_free(old(self)@.dom(), old(self).cursor()),
            final(self).cursor() == conv,
            final(self)@ == old(self)@,
    {
        proof {
            lemma_next_free(self@.dom(), self.cursor());
        }
        let ghost start: u32 = self.next_free_conv;
        let ghost live: Set<u32> = self.sessions@.dom();
        let ghost free: u32 = choose|c: u32| c != 0 && !live.contains(c);
        let mut candidate: u32 = successor(self.next_free_conv);
        while self.sessions.contains_key(&candidate)
            invariant
                candidate != 0,
                free != 0,
                !live.contains(free),
                live == self.sessions@.dom(),
                *self == *old(self),
                gap(start, candidate) <= gap(start, free),
                forall|other: u32|
                    other != 0 && gap(start, other) < gap(start, candidate)
                        ==> #[trigger] live.contains(other),
            decreases gap(start, free) - gap(start, candidate),
        {
            candidate = successor(candidate);
        }
        self.next_free_conv = candidate;
        candidate
    }

    /// Hands out a fresh identifier as [`ConvTable::alloc_conv`] does, or
    /// nothing, and changes nothing, where every identifier is live.
    pub fn try_alloc_conv(&mut self) -> (conv: Option<u32>)
        ensures
            match conv {
                Some(conv) => {
                    &&& !exhausted(old(self)@.dom())
                    &&& is_next_free(old(self)@.dom(), old(self).cursor(), conv)
                    &&& conv == next_free(old(self)@.dom(), old(self).cursor())
                    &&& final(self).cursor() == conv
                },
                None => exhausted(old(self)@.dom()) && final(self).cursor() == old(self).cursor(),
            },
            final(self)@ == old(self)@,
    {
        if self.is_exhausted() {
            None
        } else {
            Some(self.alloc_conv())
        }
    }

    /// Looks `conv` up, and creates its session if there is none.
    ///
    /// `opened` is what opening an engine for `conv` gave. A live identifier
    /// keeps its session and its peer, whatever address `peer` is, and
    /// `opened` is let go. An identifier that is not live gets a session for
    /// `peer` around the engine, or, where there is no engine, the error is
    /// handed on and the table stays as it was.
    pub fn get_or_create<E>(&mut self, conv: u32, peer: PeerAddr, opened: Result<H, E>) -> (r:
        Result<Resolved, E>)
        ensures
            final(self).cursor() == old(self).cursor(),
            r == resolved(old(self)@, conv, opened),
            final(self)@ == after_get_or_create(old(self)@, conv, peer, opened),
    {
        if self.sessions.contains_key(&conv) {
            return Ok(Resolved::Existing);
        }
        match opened {
            Ok(handle) => {
                self.sessions.insert(conv, Session { peer, handle });
                Ok(Resolved::Created)
            },
            Err(e) => Err(e),
        }
    }

    /// Forgets `conv`. An identifier that is not live is left alone.
    pub fn close_conv(&mut self, conv: u32)
        ensures
            final(self)@ == old(self)@.remove(conv),
            final(self).cursor() == old(self).cursor(),
    {
        self.sessions.remove(&conv);
    }
}

/// What a lookup-or-create answers: a live identifier is found, whatever
/// `opened` holds; one that is not live is created exactly where an engine
/// was opened.
pub open spec fn resolved<H, E>(sessions: Map<u32, Session<H>>, conv: u32, opened: Result<H, E>)
    -> Result<Resolved, E> {
    if sessions.contains_key(conv) {
        Ok(Resolved::Existing)
    } else {
        match opened {
            Ok(_) => Ok(Resolved::Created),
            Err(e) => Err(e),
        }
    }
}

/// The table after a lookup-or-create: one more session where the identifier
/// was not live and an engine was opened, the same table otherwise.
pub open spec fn after_get_or_create<H, E>(
    sessions: Map<u32, Session<H>>,
    conv: u32,
    peer: PeerAddr,
    opened: Result<H, E>,
) -> Map<u32, Session<H>> {
    match opened {
        Ok(handle) if !sessions.contains_key(conv) => sessions.insert(
            conv,
            Session { peer, handle },
        ),
        _ => sessions,
    }
}

} // verus!
