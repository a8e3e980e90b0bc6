//! The conversation identifier in a datagram's header.
//!
//! Every KCP segment starts with its conversation identifier, four bytes in
//! little-endian order. A datagram shorter than one segment header carries no
//! identifier at all.

use vstd::prelude::*;

verus! {

/// Length in bytes of a KCP segment header; no shorter datagram is a segment.
pub const HEADER_LEN: usize = 24;

/// Width in bytes of the conversation identifier at the start of the header.
pub const CONV_LEN: usize = 4;

/// The identifier reserved for "none assigned yet".
pub const UNASSIGNED: u32 = 0;

/// The identifier that the first four bytes spell, least significant first.
pub open spec fn conv_of(bytes: Seq<u8>) -> u32
    recommends
        bytes.len() >= CONV_LEN,
{
    (bytes[0] as int + bytes[1] as int * 0x100 + bytes[2] as int * 0x1_0000 + bytes[3] as int
        * 0x100_0000) as u32
}

/// The four bytes that spell `conv`, least significant first.
pub open spec fn conv_bytes(conv: u32) -> Seq<u8> {
    seq![
        (conv as int % 0x100) as u8,
        (conv as int / 0x100 % 0x100) as u8,
        (conv as int / 0x1_0000 % 0x100) as u8,
        (conv as int / 0x100_0000 % 0x100) as u8,
    ]
}

/// `bytes` with its first four bytes replaced by those of `conv`.
pub open spec fn with_conv(bytes: Seq<u8>, conv: u32) -> Seq<u8>
    recommends
        bytes.len() >= CONV_LEN,
{
    conv_bytes(conv) + bytes.skip(CONV_LEN as int)
}

/// What a datagram says of its conversation: nothing where it is too short to
/// be a segment, else the identifier in its header.
pub open spec fn decoded(bytes: Seq<u8>) -> Option<u32> {
    if bytes.len() >= HEADER_LEN {
        Some(conv_of(bytes))
    } else {
        None
    }
}

/// Reads the identifier with `kcp::get_conv`, which takes the first four
/// bytes as a little-endian number and refuses a buffer shorter than a
/// segment header.
#[verifier::external_body]
fn read_conv(packet: &[u8]) -> (conv: u32)
    requires
        packet@.len() >= HEADER_LEN,
    ensures
        conv == conv_of(packet@),
{
    kcp::get_conv(packet)
}

/// Writes the identifier with `kcp::set_conv`, which overwrites the first
/// four bytes with the little-endian form of `conv`, leaves the rest alone
/// and refuses a buffer shorter than a segment header.
#[verifier::external_body]
fn write_conv(packet: &mut [u8], conv: u32)
    requires
        old(packet)@.len() >= HEADER_LEN,
    ensures
        final(packet)@ == with_conv(old(packet)@, conv),
{
    kcp::set_conv(packet, conv)
}

/// The conversation identifier of a datagram, if it is long enough to have one.
pub fn decode_conv(packet: &[u8]) -> (conv: Option<u32>)
    ensures
        conv == decoded(packet@),
{
    if packet.len() >= HEADER_LEN {
        Some(read_conv(packet))
    } else {
        None
    }
}

/// Puts `conv` into the header of a datagram, in place. A datagram too short
/// to be a segment is left as it is, and the answer is `false`.
pub fn assign_conv(packet: &mut [u8], conv: u32) -> (written: bool)
    ensures
        written == (old(packet)@.len() >= HEADER_LEN),
        written ==> final(packet)@ == with_conv(old(packet)@, conv),
        !written ==> final(packet)@ == old(packet)@,
{
    if packet.len() >= HEADER_LEN {
        write_conv(packet, conv);
        true
    } else {
        false
    }
}

/// Writing an identifier changes the first four bytes and nothing else.
pub proof fn lemma_with_conv_keeps_rest(bytes: Seq<u8>, conv: u32)
    requires
        bytes.len() >= CONV_LEN,
    ensures
        with_conv(bytes, conv).len() == bytes.len(),
        forall|i: int| CONV_LEN <= i < bytes.len() ==> with_conv(bytes, conv)[i] == bytes[i],
{
}

/// An identifier that was written is the one that is read back.
pub proof fn lemma_written_conv_is_read(bytes: Seq<u8>, conv: u32)
    requires
        bytes.len() >= CONV_LEN,
    ensures
        conv_of(with_conv(bytes, conv)) == conv,
        bytes.len() >= HEADER_LEN ==> decoded(with_conv(bytes, conv)) == Some(conv),
{
}

} // verus!
