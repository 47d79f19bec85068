use vstd::prelude::*;

verus! {

/// The largest packet, in bytes, that the uplink accepts.
pub const MAX_PACKET_SIZE: usize = 32;

/// One type-length-value command.
pub struct TLV {
    pub typ: u8,
    pub len: u16,
    pub val: Vec<u8>,
}

/// A TLV with its value taken as a sequence.
pub struct TLVView {
    pub typ: u8,
    pub len: u16,
    pub val: Seq<u8>,
}

impl View for TLV {
    type V = TLVView;

    open spec fn view(&self) -> TLVView {
        TLVView { typ: self.typ, len: self.len, val: self.val@ }
    }
}

/// A received packet: its arrival time, its sequence number and its commands.
pub struct Packet {
    pub timestamp: u64,
    pub seq: u32,
    pub tlvs: Vec<TLV>,
}

/// A packet with its commands taken by their views.
pub struct PacketView {
    pub timestamp: u64,
    pub seq: u32,
    pub tlvs: Seq<TLVView>,
}

impl View for Packet {
    type V = PacketView;

    open spec fn view(&self) -> PacketView {
        PacketView {
            timestamp: self.timestamp,
            seq: self.seq,
            tlvs: self.tlvs@.map_values(|t: TLV| t@),
        }
    }
}

} // verus!
