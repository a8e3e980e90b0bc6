use kcp_listener::wire::{assign_conv, decode_conv, CONV_LEN, HEADER_LEN, UNASSIGNED};

fn segment(conv: u32, len: usize) -> Vec<u8> {
    let mut bytes = vec![0xAAu8; len];
    bytes[..4].copy_from_slice(&conv.to_le_bytes());
    bytes
}

#[test]
fn header_constants() {
    assert_eq!(HEADER_LEN, 24);
    assert_eq!(CONV_LEN, 4);
    assert_eq!(UNASSIGNED, 0);
    assert_eq!(HEADER_LEN, kcp::KCP_OVERHEAD);
}

#[test]
fn decode_reads_little_endian() {
    let mut packet = vec![0u8; 24];
    packet[0] = 0x78;
    packet[1] = 0x56;
    packet[2] = 0x34;
    packet[3] = 0x12;
    assert_eq!(decode_conv(&packet), Some(0x1234_5678));
}

#[test]
fn decode_agrees_with_the_engine() {
    for conv in [0u32, 1, 7, 255, 256, 65_535, 65_536, 0x0100_0000, 0xDEAD_BEEF, u32::MAX] {
        let packet = segment(conv, 40);
        assert_eq!(decode_conv(&packet), Some(conv));
        assert_eq!(decode_conv(&packet), Some(kcp::get_conv(&packet)));
    }
}

#[test]
fn decode_ignores_what_follows_the_identifier() {
    let mut packet = segment(9, 24);
    for byte in packet[4..].iter_mut() {
        *byte = 0xFF;
    }
    assert_eq!(decode_conv(&packet), Some(9));
}

#[test]
fn decode_refuses_short_datagrams() {
    assert_eq!(decode_conv(&[]), None);
    assert_eq!(decode_conv(&[1, 0, 0, 0]), None);
    assert_eq!(decode_conv(&segment(5, 23)), None);
    assert_eq!(decode_conv(&segment(5, 24)), Some(5));
}

#[test]
fn assign_writes_little_endian_and_keeps_the_rest() {
    let mut packet = segment(0, 32);
    assert!(assign_conv(&mut packet, 0x0A0B_0C0D));
    assert_eq!(&packet[..4], &[0x0D, 0x0C, 0x0B, 0x0A]);
    assert!(packet[4..].iter().all(|&b| b == 0xAA));
    assert_eq!(packet.len(), 32);
}

#[test]
fn assign_then_decode_gives_the_identifier() {
    for conv in [1u32, 2, 0x100, 0xFFFF, 0x1_0000, 0x00FF_FF00, 0x8000_0000, u32::MAX] {
        let mut packet = segment(0, 24);
        assert!(assign_conv(&mut packet, conv));
        assert_eq!(decode_conv(&packet), Some(conv));
        assert_eq!(kcp::get_conv(&packet), conv);
    }
}

#[test]
fn assign_leaves_short_datagrams_alone() {
    let mut packet = vec![3u8; 23];
    assert!(!assign_conv(&mut packet, 77));
    assert_eq!(packet, vec![3u8; 23]);
    let mut empty: Vec<u8> = Vec::new();
    assert!(!assign_conv(&mut empty, 77));
    assert!(empty.is_empty());
}
