use vstd::prelude::*;

verus! {

/// The command families of the uplink protocol, one per TLV type byte.
#[derive(Clone, Copy, Debug, PartialEq, Eq, Structural)]
pub enum CommandType {
    System,
    Telemetry,
    Comms,
    Payload,
    Adcs,
    FaultManagement,
    FaultInjection,
    Storage,
}

/// The command family that a TLV type byte names, if any (bytes 0x01 to 0x08).
pub open spec fn command_type_of(byte: u8) -> Option<CommandType> {
    match byte {
        0x01 => Some(CommandType::System),
        0x02 => Some(CommandType::Telemetry),
        0x03 => Some(CommandType::Comms),
        0x04 => Some(CommandType::Payload),
        0x05 => Some(CommandType::Adcs),
        0x06 => Some(CommandType::FaultManagement),
        0x07 => Some(CommandType::FaultInjection),
        0x08 => Some(CommandType::Storage),
        _ => None,
    }
}

/// The largest value byte that a one-byte command of type `typ` accepts.
pub open spec fn max_command_value(typ: u8) -> int {
    match typ {
        0x01 => 0x01,
        0x02 => 0x06,
        0x03 => 0x04,
        0x04 => 0x04,
        0x05 => 0x05,
        0x06 => 0x04,
        0x07 => 0x07,
        0x08 => 0x03,
        _ => -1,
    }
}

/// Command types that also exist as a bare command without a value byte:
/// `01 00` (shutdown) and `08 00` (storage dump).
pub open spec fn accepts_empty_command(typ: u8) -> bool {
    typ == 0x01 || typ == 0x08
}

/// A TLV is valid when its value has exactly `len` bytes and either it is one
/// of the two bare commands, or it carries one value byte within the range
/// that its command type defines.
pub open spec fn tlv_is_valid(typ: u8, len: u16, val: Seq<u8>) -> bool {
    &&& val.len() == len
    &&& {
        ||| len == 0 && accepts_empty_command(typ)
        ||| len == 1 && command_type_of(typ) is Some && val[0] <= max_command_value(typ)
    }
}

impl CommandType {
    /// Decodes a TLV type byte.
    pub fn from_byte(byte: u8) -> (r: Option<Self>)
        ensures
            r == command_type_of(byte),
    {
        match byte {
            0x01 => Some(CommandType::System),
            0x02 => Some(CommandType::Telemetry),
            0x03 => Some(CommandType::Comms),
            0x04 => Some(CommandType::Payload),
            0x05 => Some(CommandType::Adcs),
            0x06 => Some(CommandType::FaultManagement),
            0x07 => Some(CommandType::FaultInjection),
            0x08 => Some(CommandType::Storage),
            _ => None,
        }
    }
}

/// Checks a TLV against the command table of the protocol.
pub fn is_valid_tlv(typ: u8, len: u16, val: &[u8]) -> (r: bool)
    ensures
        r == tlv_is_valid(typ, len, val@),
{
    if val.len() != len as usize {
        return false;
    }
    match typ {
        0x01 => match len {
            0 => val.len() == 0,
            1 => val[0] == 0x00 || val[0] == 0x01,
            _ => false,
        },
        0x02 => len == 1 && val[0] <= 0x06,
        0x03 => len == 1 && val[0] <= 0x04,
        0x04 => len == 1 && val[0] <= 0x04,
        0x05 => len == 1 && val[0] <= 0x05,
        0x06 => len == 1 && val[0] <= 0x04,
        0x07 => len == 1 && val[0] <= 0x07,
        0x08 => match len {
            0 => val.len() == 0,
            1 => val[0] <= 0x03,
            _ => false,
        },
        _ => false,
    }
}

/// Law: the command table. The type bytes 0x01 to 0x08 name the eight command
/// families in order and no other byte names one; a TLV is valid only when its
/// value has exactly `len` bytes; with no value byte only system (0x01) and
/// storage (0x08) are valid; with one value byte every value from 0x00 up to
/// the type's largest (0x01, 0x06, 0x04, 0x04, 0x05, 0x04, 0x07, 0x03 for types
/// 0x01 to 0x08) is valid and no larger one; two or more value bytes are never
/// valid.
pub proof fn lemma_command_table(typ: u8, len: u16, val: Seq<u8>)
    ensures
        command_type_of(typ) is Some <==> 0x01 <= typ <= 0x08,
        command_type_of(0x01) == Some(CommandType::System),
        command_type_of(0x02) == Some(CommandType::Telemetry),
        command_type_of(0x03) == Some(CommandType::Comms),
        command_type_of(0x04) == Some(CommandType::Payload),
        command_type_of(0x05) == Some(CommandType::Adcs),
        command_type_of(0x06) == Some(CommandType::FaultManagement),
        command_type_of(0x07) == Some(CommandType::FaultInjection),
        command_type_of(0x08) == Some(CommandType::Storage),
        tlv_is_valid(typ, len, val) ==> val.len() == len,
        val.len() == len && len == 0 ==> (tlv_is_valid(typ, len, val) <==> (typ == 0x01 || typ
            == 0x08)),
        val.len() == len && len == 1 ==> (tlv_is_valid(typ, len, val) <==> {
            ||| typ == 0x01 && val[0] <= 0x01
            ||| typ == 0x02 && val[0] <= 0x06
            ||| typ == 0x03 && val[0] <= 0x04
            ||| typ == 0x04 && val[0] <= 0x04
            ||| typ == 0x05 && val[0] <= 0x05
            ||| typ == 0x06 && val[0] <= 0x04
            ||| typ == 0x07 && val[0] <= 0x07
            ||| typ == 0x08 && val[0] <= 0x03
        }),
        len >= 2 ==> !tlv_is_valid(typ, len, val),
{
}

} // verus!
