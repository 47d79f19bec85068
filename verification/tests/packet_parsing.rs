use obc::commands::{is_valid_tlv, CommandType};
use obc::errors::PacketError;
use obc::modes::valid_transition;
use obc::parser::parse_packet;
use obc::state::OBCMode;

#[test]
fn parse_valid_system_mode_packet() {
    let bytes = [0x01, 0x01, 0x01];
    let packet = parse_packet(&bytes, 7, 1234).expect("packet should parse");
    assert_eq!(packet.seq, 7);
    assert_eq!(packet.tlvs.len(), 1);
    assert_eq!(packet.tlvs[0].typ, 0x01);
}

#[test]
fn parse_valid_shutdown_packet() {
    let bytes = [0x01, 0x00];
    let packet = parse_packet(&bytes, 3, 99).expect("shutdown packet should parse");
    assert_eq!(packet.tlvs[0].len, 0);
    assert!(packet.tlvs[0].val.is_empty());
}

#[test]
fn parse_rejects_unknown_type() {
    let bytes = [0x99, 0x01, 0x00];
    match parse_packet(&bytes, 0, 0) {
        Err(err) => assert_eq!(err, PacketError::UnknownType),
        Ok(_) => panic!("unknown command must fail"),
    }
}

#[test]
fn safe_to_normal_blocked_when_faults_active() {
    let allowed = valid_transition(OBCMode::Safe, OBCMode::Normal, true);
    assert!(!allowed);
}

#[test]
fn parse_rejects_invalid_value_for_command() {
    let bytes = [0x08, 0x01, 0xFF];
    match parse_packet(&bytes, 0, 0) {
        Err(err) => assert_eq!(err, PacketError::InvalidValue),
        Ok(_) => panic!("invalid value must fail"),
    }
}

#[test]
fn parse_rejects_system_wrong_length() {
    let bytes = [0x01, 0x02, 0x00, 0x01];
    match parse_packet(&bytes, 0, 0) {
        Err(err) => assert_eq!(err, PacketError::InvalidValue),
        Ok(_) => panic!("system command length must follow COMMANDS.txt"),
    }
}

#[test]
fn parse_rejects_storage_length_one_without_value() {
    let bytes = [0x08, 0x01];
    match parse_packet(&bytes, 0, 0) {
        Err(err) => assert_eq!(err, PacketError::InvalidLength),
        Ok(_) => panic!("storage command length/value mismatch must fail"),
    }
}

fn parse_err(bytes: &[u8]) -> PacketError {
    match parse_packet(bytes, 0, 0) {
        Err(e) => e,
        Ok(_) => panic!("expected a refusal"),
    }
}

#[test]
fn parse_reports_each_error_kind() {
    assert_eq!(parse_err(&[]), PacketError::EmptyPacket);
    assert_eq!(parse_err(&[0x01]), PacketError::InvalidLength);
    assert_eq!(parse_err(&[0x01; 33]), PacketError::PacketTooLarge);
    assert_eq!(parse_err(&[0x00, 0x00]), PacketError::UnknownType);
    assert_eq!(parse_err(&[0x02, 0x02, 0x01]), PacketError::InvalidLength);
    assert_eq!(parse_err(&[0x02, 0x01, 0x07]), PacketError::InvalidValue);
}

#[test]
fn parse_checks_run_in_order() {
    // Too large wins over an unknown type; an unknown type wins over a bad length.
    let mut big = vec![0x99u8, 0x05];
    big.extend_from_slice(&[0u8; 31]);
    assert_eq!(parse_err(&big), PacketError::PacketTooLarge);
    assert_eq!(parse_err(&[0x09, 0x05, 0x00]), PacketError::UnknownType);
}

#[test]
fn parse_keeps_the_wire_bytes() {
    let p = parse_packet(&[0x07, 0x01, 0x05], 42, 1_000).unwrap();
    assert_eq!(p.timestamp, 1_000);
    assert_eq!(p.seq, 42);
    assert_eq!(p.tlvs[0].typ, 0x07);
    assert_eq!(p.tlvs[0].len, 1);
    assert_eq!(p.tlvs[0].val, vec![0x05]);
    let dump = parse_packet(&[0x08, 0x00], 0, 0).unwrap();
    assert_eq!(dump.tlvs[0].len, 0);
}

#[test]
fn parse_accepts_largest_value_of_each_type() {
    for (typ, max) in [(1u8, 1u8), (2, 6), (3, 4), (4, 4), (5, 5), (6, 4), (7, 7), (8, 3)] {
        assert!(parse_packet(&[typ, 1, max], 0, 0).is_ok());
        assert_eq!(parse_err(&[typ, 1, max + 1]), PacketError::InvalidValue);
    }
    assert_eq!(parse_err(&[0x02, 0x00]), PacketError::InvalidValue);
}

#[test]
fn command_table() {
    assert_eq!(CommandType::from_byte(0x01), Some(CommandType::System));
    assert_eq!(CommandType::from_byte(0x06), Some(CommandType::FaultManagement));
    assert_eq!(CommandType::from_byte(0x08), Some(CommandType::Storage));
    assert_eq!(CommandType::from_byte(0x00), None);
    assert_eq!(CommandType::from_byte(0x09), None);
    assert!(is_valid_tlv(0x01, 0, &[]));
    assert!(!is_valid_tlv(0x01, 1, &[]));
    assert!(!is_valid_tlv(0x03, 0, &[]));
    assert!(is_valid_tlv(0x07, 1, &[0x07]));
    assert!(!is_valid_tlv(0x07, 2, &[0x00, 0x01]));
}

#[test]
fn packet_error_messages() {
    assert_eq!(PacketError::EmptyPacket.message(), "empty packet");
    assert_eq!(PacketError::InvalidLength.message(), "invalid packet length");
    assert_eq!(PacketError::UnknownType.message(), "unknown command type");
    assert_eq!(PacketError::InvalidValue.message(), "invalid command value");
    assert_eq!(PacketError::PacketTooLarge.message(), "packet exceeds maximum size");
}

#[test]
fn mode_transition_rule() {
    assert!(valid_transition(OBCMode::Normal, OBCMode::Safe, true));
    assert!(valid_transition(OBCMode::Safe, OBCMode::Safe, true));
    assert!(valid_transition(OBCMode::Safe, OBCMode::Normal, false));
    assert!(valid_transition(OBCMode::Normal, OBCMode::Normal, true));
}
