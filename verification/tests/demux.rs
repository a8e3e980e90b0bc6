use kcp_listener::demux::{
    accept_outcome, offer, on_close_notice, on_datagram, on_offered, on_opened, AcceptError,
    Control, Discard, Offering, Opening, Routing, ACCEPT_BACKLOG, CLOSE_BACKLOG, MAX_DATAGRAM,
    RECV_BACKOFF_SECS,
};
use kcp_listener::peer::PeerAddr;
use kcp_listener::table::ConvTable;
use kcp_listener::wire::decode_conv;

fn peer(port: u16) -> PeerAddr {
    PeerAddr::V4 { octets: 0x7F00_0001, port }
}

fn segment(conv: u32, marker: u8) -> Vec<u8> {
    let mut bytes = vec![marker; 28];
    bytes[..4].copy_from_slice(&conv.to_le_bytes());
    bytes
}

/// A stand-in for the loop and the engines: it remembers what every session
/// was handed and what was put on the accept queue.
struct Bench {
    table: ConvTable<usize>,
    inputs: Vec<Vec<Vec<u8>>>,
    accepted: Vec<(u32, PeerAddr)>,
    backlog: usize,
}

impl Bench {
    fn new(backlog: usize) -> Bench {
        Bench { table: ConvTable::new(), inputs: Vec::new(), accepted: Vec::new(), backlog }
    }

    fn receive(&mut self, mut packet: Vec<u8>, from: PeerAddr) -> Option<u32> {
        let conv = match on_datagram(&mut self.table, &mut packet) {
            Routing::Drop(_) => return None,
            Routing::Forward(conv) => conv,
            Routing::Open(conv) => {
                let opened: Result<usize, ()> = Ok(self.inputs.len());
                match on_opened(&mut self.table, conv, from, opened) {
                    Opening::Failed(()) => return None,
                    Opening::Forward(conv) => conv,
                    Opening::Offer(conv) => {
                        self.inputs.push(Vec::new());
                        let room = self.accepted.len() < self.backlog;
                        if room {
                            self.accepted.push((conv, from));
                        }
                        match on_offered(&mut self.table, conv, room) {
                            Offering::Forward(conv) => conv,
                            Offering::RolledBack(_) => return None,
                        }
                    }
                }
            }
        };
        let slot = self.table.session(conv).unwrap().handle;
        self.inputs[slot].push(packet);
        Some(conv)
    }
}

#[test]
fn loop_constants() {
    assert_eq!(ACCEPT_BACKLOG, 1024);
    assert_eq!(CLOSE_BACKLOG, 64);
    assert_eq!(MAX_DATAGRAM, 65536);
    assert_eq!(RECV_BACKOFF_SECS, 1);
}

#[test]
fn runt_datagram_is_dropped() {
    let mut table: ConvTable<u8> = ConvTable::new();
    let mut packet = vec![1u8; 23];
    assert_eq!(on_datagram(&mut table, &mut packet), Routing::Drop(Discard::Runt));
    assert_eq!(packet, vec![1u8; 23]);
    assert!(table.is_empty());
    assert_eq!(table.try_alloc_conv(), Some(1));
}

#[test]
fn unknown_conversation_is_opened() {
    let mut table: ConvTable<u8> = ConvTable::new();
    let mut packet = segment(77, 5);
    assert_eq!(on_datagram(&mut table, &mut packet), Routing::Open(77));
    assert_eq!(packet, segment(77, 5));
    assert!(table.is_empty());
}

#[test]
fn live_conversation_is_forwarded() {
    let mut table: ConvTable<u8> = ConvTable::new();
    table.get_or_create::<()>(77, peer(1), Ok(0)).unwrap();
    let mut packet = segment(77, 5);
    assert_eq!(on_datagram(&mut table, &mut packet), Routing::Forward(77));
    assert_eq!(packet, segment(77, 5));
    assert_eq!(table.len(), 1);
}

#[test]
fn zero_identifier_gets_a_fresh_one_in_the_header() {
    let mut table: ConvTable<u8> = ConvTable::new();
    table.get_or_create::<()>(1, peer(1), Ok(0)).unwrap();
    let mut packet = segment(0, 9);
    assert_eq!(on_datagram(&mut table, &mut packet), Routing::Open(2));
    assert_eq!(packet, segment(2, 9));
    assert_eq!(decode_conv(&packet), Some(2));
    assert_eq!(table.len(), 1);
}

#[test]
fn opened_engine_creates_the_session() {
    let mut table: ConvTable<&str> = ConvTable::new();
    let next = on_opened::<&str, ()>(&mut table, 5, peer(10), Ok("engine"));
    assert!(matches!(next, Opening::Offer(5)));
    let session = table.session(5).unwrap();
    assert_eq!(session.handle, "engine");
    assert_eq!(session.peer, peer(10));
}

#[test]
fn failed_engine_leaves_the_table_alone() {
    let mut table: ConvTable<&str> = ConvTable::new();
    let next = on_opened(&mut table, 5, peer(10), Err("out of memory"));
    assert!(matches!(next, Opening::Failed("out of memory")));
    assert!(table.is_empty());
}

#[test]
fn opening_a_live_conversation_forwards() {
    let mut table: ConvTable<&str> = ConvTable::new();
    table.get_or_create::<()>(5, peer(10), Ok("old")).unwrap();
    let next = on_opened::<&str, ()>(&mut table, 5, peer(11), Ok("new"));
    assert!(matches!(next, Opening::Forward(5)));
    let session = table.session(5).unwrap();
    assert_eq!((session.handle, session.peer), ("old", peer(10)));
}

#[test]
fn accepted_offer_forwards() {
    let mut table: ConvTable<u8> = ConvTable::new();
    table.get_or_create::<()>(5, peer(10), Ok(1)).unwrap();
    assert_eq!(on_offered(&mut table, 5, true), Offering::Forward(5));
    assert!(table.contains(5));
}

#[test]
fn full_queue_rolls_the_session_back() {
    let mut table: ConvTable<u8> = ConvTable::new();
    table.get_or_create::<()>(4, peer(9), Ok(0)).unwrap();
    table.get_or_create::<()>(5, peer(10), Ok(1)).unwrap();
    assert_eq!(on_offered(&mut table, 5, false), Offering::RolledBack(5));
    assert!(!table.contains(5));
    assert!(table.contains(4));
    assert_eq!(table.len(), 1);
}

#[test]
fn saturated_accept_queue_leaves_no_orphans() {
    let mut bench = Bench::new(3);
    for port in 0..3u16 {
        assert!(bench.receive(segment(0, 1), peer(port)).is_some());
    }
    assert_eq!(bench.table.len(), 3);
    for port in 3..10u16 {
        assert_eq!(bench.receive(segment(0, 1), peer(port)), None);
        assert_eq!(bench.table.len(), 3);
    }
    assert_eq!(bench.receive(segment(900, 1), peer(99)), None);
    assert!(!bench.table.contains(900));
    assert_eq!(bench.accepted.len(), 3);
    assert_eq!(bench.receive(segment(2, 8), peer(1)), Some(2));
}

#[test]
fn close_notice_removes_the_session() {
    let mut table: ConvTable<u8> = ConvTable::new();
    table.get_or_create::<()>(3, peer(1), Ok(1)).unwrap();
    assert_eq!(on_close_notice(&mut table, Some(3)), Control::Continue);
    assert!(!table.contains(3));
}

#[test]
fn close_notice_for_seven_twice() {
    let mut table: ConvTable<u8> = ConvTable::new();
    table.get_or_create::<()>(7, peer(1), Ok(1)).unwrap();
    table.get_or_create::<()>(8, peer(2), Ok(2)).unwrap();
    assert_eq!(on_close_notice(&mut table, Some(7)), Control::Continue);
    assert!(!table.contains(7));
    assert_eq!(on_close_notice(&mut table, Some(7)), Control::Continue);
    assert!(!table.contains(7));
    assert!(table.contains(8));
    assert_eq!(table.len(), 1);
}

#[test]
fn close_notice_for_an_identifier_never_seen() {
    let mut table: ConvTable<u8> = ConvTable::new();
    assert_eq!(on_close_notice(&mut table, Some(7)), Control::Continue);
    assert!(table.is_empty());
}

#[test]
fn lost_close_channel_stops_the_loop() {
    let mut table: ConvTable<u8> = ConvTable::new();
    table.get_or_create::<()>(7, peer(1), Ok(1)).unwrap();
    assert_eq!(on_close_notice(&mut table, None), Control::Stop);
    assert!(table.contains(7));
}

#[test]
fn accept_outcome_passes_the_item_on() {
    assert_eq!(accept_outcome(Some(("stream", 9))), Ok(("stream", 9)));
}

#[test]
fn accept_outcome_reports_a_closed_queue() {
    assert_eq!(accept_outcome::<u8>(None), Err(AcceptError::Closed));
    assert_eq!(AcceptError::Closed.message(), "accept channel closed unexpectly");
}

#[test]
fn first_contact_then_same_session() {
    let mut bench = Bench::new(ACCEPT_BACKLOG);
    let sender = peer(40000);
    let conv = bench.receive(segment(0, 0x11), sender).unwrap();
    assert_ne!(conv, 0);
    assert_eq!(bench.accepted, vec![(conv, sender)]);
    assert_eq!(bench.receive(segment(conv, 0x22), sender), Some(conv));
    assert_eq!(bench.receive(segment(conv, 0x33), sender), Some(conv));
    assert_eq!(bench.accepted.len(), 1);
    assert_eq!(bench.table.len(), 1);
    assert_eq!(bench.inputs.len(), 1);
    assert_eq!(
        bench.inputs[0],
        vec![segment(conv, 0x11), segment(conv, 0x22), segment(conv, 0x33)]
    );
}

#[test]
fn other_peer_reaches_the_existing_session() {
    let mut bench = Bench::new(ACCEPT_BACKLOG);
    let conv = bench.receive(segment(0, 1), peer(1)).unwrap();
    assert_eq!(bench.receive(segment(conv, 2), peer(2)), Some(conv));
    assert_eq!(bench.table.session(conv).unwrap().peer, peer(1));
    assert_eq!(bench.accepted, vec![(conv, peer(1))]);
    assert_eq!(bench.inputs[0].len(), 2);
}

#[test]
fn hundred_peers_get_hundred_identifiers() {
    let mut bench = Bench::new(ACCEPT_BACKLOG);
    let mut given = Vec::new();
    for port in 0..100u16 {
        given.push(bench.receive(segment(0, 7), peer(port)).unwrap());
    }
    let mut distinct = given.clone();
    distinct.sort();
    distinct.dedup();
    assert_eq!(distinct.len(), 100);
    assert!(given.iter().all(|&conv| conv != 0));
    assert_eq!(bench.accepted.len(), 100);
    assert_eq!(bench.table.len(), 100);
    for (i, &(conv, from)) in bench.accepted.iter().enumerate() {
        assert_eq!(conv, given[i]);
        assert_eq!(from, peer(i as u16));
        assert_eq!(bench.table.session(conv).unwrap().peer, from);
    }
}

#[test]
fn datagrams_of_one_conversation_keep_their_order() {
    let mut bench = Bench::new(ACCEPT_BACKLOG);
    let mut sent = Vec::new();
    for marker in 0..50u8 {
        let other = 1000 + (marker as u32 % 3);
        bench.receive(segment(other, marker), peer(2));
        bench.receive(segment(42, marker), peer(1));
        sent.push(segment(42, marker));
    }
    let slot = bench.table.session(42).unwrap().handle;
    assert_eq!(bench.inputs[slot], sent);
}

#[test]
fn closed_conversation_starts_anew() {
    let mut bench = Bench::new(ACCEPT_BACKLOG);
    assert_eq!(bench.receive(segment(6, 1), peer(1)), Some(6));
    assert_eq!(on_close_notice(&mut bench.table, Some(6)), Control::Continue);
    assert_eq!(bench.receive(segment(6, 2), peer(2)), Some(6));
    assert_eq!(bench.accepted, vec![(6, peer(1)), (6, peer(2))]);
    assert_eq!(bench.inputs[0], vec![segment(6, 1)]);
    assert_eq!(bench.inputs[1], vec![segment(6, 2)]);
}

#[test]
fn offer_puts_the_item_on_the_queue() {
    let (queue, mut fetch) = tokio::sync::mpsc::channel::<(&str, PeerAddr)>(2);
    let mut table: ConvTable<u8> = ConvTable::new();
    table.get_or_create::<()>(5, peer(10), Ok(1)).unwrap();
    assert_eq!(offer(&mut table, 5, &queue, ("stream", peer(10))), Offering::Forward(5));
    assert!(table.contains(5));
    assert_eq!(fetch.try_recv().ok(), Some(("stream", peer(10))));
    assert!(fetch.try_recv().is_err());
}

#[test]
fn offer_to_a_full_queue_rolls_back() {
    let (queue, mut fetch) = tokio::sync::mpsc::channel::<u32>(2);
    let mut table: ConvTable<u8> = ConvTable::new();
    for conv in 1..=3u32 {
        table.get_or_create::<()>(conv, peer(conv as u16), Ok(0)).unwrap();
    }
    assert_eq!(offer(&mut table, 1, &queue, 1), Offering::Forward(1));
    assert_eq!(offer(&mut table, 2, &queue, 2), Offering::Forward(2));
    assert_eq!(offer(&mut table, 3, &queue, 3), Offering::RolledBack(3));
    assert!(table.contains(1));
    assert!(table.contains(2));
    assert!(!table.contains(3));
    assert_eq!(fetch.try_recv().ok(), Some(1));
    assert_eq!(fetch.try_recv().ok(), Some(2));
    assert!(fetch.try_recv().is_err());
}

#[test]
fn offer_finds_room_again_once_an_item_was_fetched() {
    let (queue, mut fetch) = tokio::sync::mpsc::channel::<u32>(1);
    let mut table: ConvTable<u8> = ConvTable::new();
    table.get_or_create::<()>(1, peer(1), Ok(0)).unwrap();
    table.get_or_create::<()>(2, peer(2), Ok(0)).unwrap();
    assert_eq!(offer(&mut table, 1, &queue, 1), Offering::Forward(1));
    assert_eq!(fetch.try_recv().ok(), Some(1));
    assert_eq!(offer(&mut table, 2, &queue, 2), Offering::Forward(2));
    assert_eq!(table.len(), 2);
}

#[test]
fn offer_to_a_queue_without_receiver_rolls_back() {
    let (queue, fetch) = tokio::sync::mpsc::channel::<u32>(4);
    drop(fetch);
    let mut table: ConvTable<u8> = ConvTable::new();
    table.get_or_create::<()>(9, peer(1), Ok(0)).unwrap();
    assert_eq!(offer(&mut table, 9, &queue, 9), Offering::RolledBack(9));
    assert!(table.is_empty());
}
