//! Server-side demultiplexing of KCP conversations that share one UDP socket.
//!
//! The crate holds the decisions of a listener: which conversation a datagram
//! belongs to, when a fresh conversation identifier is handed out, which
//! sessions are live, and when a session is taken out again. Sockets, timers
//! and channels stay with the caller, which feeds every event to the
//! functions of [`demux`] and carries out what they answer.

pub mod demux;
pub mod ident;
pub mod peer;
pub mod table;
pub mod trace;
pub mod wire;
