use vstd::prelude::*;

use crate::commands::{command_type_of, is_valid_tlv, tlv_is_valid, CommandType};
use crate::errors::PacketError;
use crate::packet::{Packet, TLVView, MAX_PACKET_SIZE, TLV};

verus! {

/// What the uplink makes of a byte string: the single TLV it carries, or the
/// first check (in the order below) that it fails.
///
/// The wire format is `type, length, value...`: one type byte, one length
/// byte, then exactly `length` value bytes, at most `MAX_PACKET_SIZE` bytes in all.
pub open spec fn packet_verdict(bytes: Seq<u8>) -> Result<TLVView, PacketError> {
    if bytes.len() == 0 {
        Err(PacketError::EmptyPacket)
    } else if bytes.len() < 2 {
        Err(PacketError::InvalidLength)
    } else if bytes.len() > MAX_PACKET_SIZE {
        Err(PacketError::PacketTooLarge)
    } else if command_type_of(bytes[0]) is None {
        Err(PacketError::UnknownType)
    } else if bytes.len() - 2 != bytes[1] {
        Err(PacketError::InvalidLength)
    } else if !tlv_is_valid(bytes[0], bytes[1] as u16, bytes.skip(2)) {
        Err(PacketError::InvalidValue)
    } else {
        Ok(TLVView { typ: bytes[0], len: bytes[1] as u16, val: bytes.skip(2) })
    }
}

/// The bytes that encode a TLV on the wire.
pub open spec fn tlv_wire_bytes(t: TLVView) -> Seq<u8> {
    seq![t.typ, t.len as u8] + t.val
}

/// Parses one uplinked packet, stamping it with `seq` and `timestamp`.
pub fn parse_packet(bytes: &[u8], seq: u32, timestamp: u64) -> (r: Result<Packet, PacketError>)
    ensures
        match r {
            Ok(p) => {
                &&& packet_verdict(bytes@) == Ok::<TLVView, PacketError>(p@.tlvs[0])
                &&& p@.seq == seq
                &&& p@.timestamp == timestamp
                &&& p@.tlvs.len() == 1
            },
            Err(e) => packet_verdict(bytes@) == Err::<TLVView, PacketError>(e),
        },
        // A packet that is accepted is exactly the encoding of the command it yields.
        r is Ok ==> tlv_wire_bytes(r->Ok_0@.tlvs[0]) == bytes@,
{
    if bytes.len() == 0 {
        return Err(PacketError::EmptyPacket);
    }
    if bytes.len() < 2 {
        return Err(PacketError::InvalidLength);
    }
    if bytes.len() > MAX_PACKET_SIZE {
        return Err(PacketError::PacketTooLarge);
    }
    let typ = bytes[0];
    let len = bytes[1] as usize;
    if CommandType::from_byte(typ).is_none() {
        return Err(PacketError::UnknownType);
    }
    if bytes.len() - 2 != len {
        return Err(PacketError::InvalidLength);
    }
    let mut val: Vec<u8> = Vec::new();
    let mut i: usize = 2;
    while i < bytes.len()
        invariant
            2 <= i <= bytes@.len(),
            val@ == bytes@.subrange(2, i as int),
        decreases bytes@.len() - i,
    {
        val.push(bytes[i]);
        i = i + 1;
    }
    assert(val@ == bytes@.skip(2));
    if !is_valid_tlv(typ, len as u16, val.as_slice()) {
        return Err(PacketError::InvalidValue);
    }
    let tlv = TLV { typ, len: len as u16, val };
    let mut tlvs: Vec<TLV> = Vec::new();
    tlvs.push(tlv);
    let p = Packet { timestamp, seq, tlvs };
    assert(p@.tlvs[0] == p.tlvs@[0]@);
    assert(tlv_wire_bytes(p@.tlvs[0]) =~= bytes@);
    Ok(p)
}

/// Law: every valid command, encoded for the wire, parses back to itself;
/// and a byte string is accepted exactly when it is the encoding of a valid
/// command.
pub proof fn lemma_wire_roundtrip(t: TLVView, bytes: Seq<u8>)
    ensures
        tlv_is_valid(t.typ, t.len, t.val) ==> packet_verdict(tlv_wire_bytes(t)) == Ok::<
            TLVView,
            PacketError,
        >(t),
        packet_verdict(bytes) is Ok <==> exists|u: TLVView|
            tlv_is_valid(u.typ, u.len, u.val) && #[trigger] tlv_wire_bytes(u) == bytes,
{
    if tlv_is_valid(t.typ, t.len, t.val) {
        let w = tlv_wire_bytes(t);
        assert(w.skip(2) =~= t.val);
        assert(w[0] == t.typ);
        assert(w[1] == t.len as u8);
    }
    if packet_verdict(bytes) is Ok {
        let u = packet_verdict(bytes)->Ok_0;
        assert(tlv_wire_bytes(u) =~= bytes);
    }
    if exists|u: TLVView| tlv_is_valid(u.typ, u.len, u.val) && #[trigger] tlv_wire_bytes(u) == bytes {
        let u = choose|u: TLVView| tlv_is_valid(u.typ, u.len, u.val) && #[trigger] tlv_wire_bytes(u) == bytes;
        let w = tlv_wire_bytes(u);
        assert(w.skip(2) =~= u.val);
        assert(w[0] == u.typ);
        assert(w[1] == u.len as u8);
    }
}

/// Law: a one-byte command `t 01 v` of a known type `t` is accepted exactly
/// when its value is within its type's range (system up to 0x01, telemetry up
/// to 0x06, comms and payload up to 0x04, ADCS up to 0x05, fault management up
/// to 0x04, fault injection up to 0x07, storage up to 0x03), and then parses to
/// that very command; any larger value is refused as an invalid value.
pub proof fn lemma_one_byte_command_range(t: u8, v: u8)
    requires
        0x01 <= t <= 0x08,
    ensures
        packet_verdict(seq![t, 0x01u8, v]) is Ok <==> {
            ||| t == 0x01 && v <= 0x01
            ||| t == 0x02 && v <= 0x06
            ||| t == 0x03 && v <= 0x04
            ||| t == 0x04 && v <= 0x04
            ||| t == 0x05 && v <= 0x05
            ||| t == 0x06 && v <= 0x04
            ||| t == 0x07 && v <= 0x07
            ||| t == 0x08 && v <= 0x03
        },
        packet_verdict(seq![t, 0x01u8, v]) is Ok ==> packet_verdict(seq![t, 0x01u8, v]) == Ok::<
            TLVView,
            PacketError,
        >(TLVView { typ: t, len: 1, val: seq![v] }),
        packet_verdict(seq![t, 0x01u8, v]) is Err ==> packet_verdict(seq![t, 0x01u8, v]) == Err::<
            TLVView,
            PacketError,
        >(PacketError::InvalidValue),
{
    assert(seq![t, 0x01u8, v].skip(2) =~= seq![v]);
}

/// Law: the bare commands `01 00` (shutdown) and `08 00` (storage dump) are
/// accepted as commands with no value; a bare command of any other known type
/// is refused as an invalid value.
pub proof fn lemma_bare_commands(t: u8)
    requires
        0x01 <= t <= 0x08,
    ensures
        (t == 0x01 || t == 0x08) ==> packet_verdict(seq![t, 0x00u8]) == Ok::<TLVView, PacketError>(
            TLVView { typ: t, len: 0, val: Seq::empty() },
        ),
        !(t == 0x01 || t == 0x08) ==> packet_verdict(seq![t, 0x00u8]) == Err::<TLVView, PacketError>(
            PacketError::InvalidValue,
        ),
{
    assert(seq![t, 0x00u8].skip(2) =~= Seq::<u8>::empty());
}

/// Law: which refusal a malformed byte string gets. No bytes: empty packet;
/// one byte: invalid length; more than 32 bytes: too large; otherwise a type
/// byte outside 0x01..0x08: unknown type; a length byte that does not count
/// the bytes after it: invalid length; a known type with two or more value
/// bytes: invalid value.
pub proof fn lemma_refusals(bytes: Seq<u8>)
    ensures
        bytes.len() == 0 ==> packet_verdict(bytes) == Err::<TLVView, PacketError>(PacketError::EmptyPacket),
        bytes.len() == 1 ==> packet_verdict(bytes) == Err::<TLVView, PacketError>(PacketError::InvalidLength),
        bytes.len() > 32 ==> packet_verdict(bytes) == Err::<TLVView, PacketError>(PacketError::PacketTooLarge),
        2 <= bytes.len() <= 32 && (bytes[0] == 0 || bytes[0] > 0x08) ==> packet_verdict(bytes) == Err::<
            TLVView,
            PacketError,
        >(PacketError::UnknownType),
        2 <= bytes.len() <= 32 && 0x01 <= bytes[0] <= 0x08 && bytes[1] != bytes.len() - 2
            ==> packet_verdict(bytes) == Err::<TLVView, PacketError>(PacketError::InvalidLength),
        2 <= bytes.len() <= 32 && 0x01 <= bytes[0] <= 0x08 && bytes[1] == bytes.len() - 2 && bytes[1]
            >= 2 ==> packet_verdict(bytes) == Err::<TLVView, PacketError>(PacketError::InvalidValue),
{
}

} // verus!
