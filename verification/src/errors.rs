use vstd::prelude::*;

verus! {

/// Why an uplinked byte string was refused as a packet.
#[derive(Debug, Clone, Copy, PartialEq, Eq, Structural)]
pub enum PacketError {
    EmptyPacket,
    InvalidLength,
    UnknownType,
    InvalidValue,
    PacketTooLarge,
}

/// The human-readable text of each packet error.
pub open spec fn packet_error_text(e: PacketError) -> Seq<char> {
    match e {
        PacketError::EmptyPacket => "empty packet"@,
        PacketError::InvalidLength => "invalid packet length"@,
        PacketError::UnknownType => "unknown command type"@,
        PacketError::InvalidValue => "invalid command value"@,
        PacketError::PacketTooLarge => "packet exceeds maximum size"@,
    }
}

impl PacketError {
    /// The text shown to the operator for this error.
    pub fn message(&self) -> (r: &'static str)
        ensures
            r@ == packet_error_text(*self),
    {
        match self {
            PacketError::EmptyPacket => "empty packet",
            PacketError::InvalidLength => "invalid packet length",
            PacketError::UnknownType => "unknown command type",
            PacketError::InvalidValue => "invalid command value",
            PacketError::PacketTooLarge => "packet exceeds maximum size",
        }
    }
}

} // verus!
