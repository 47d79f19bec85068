use obc::actions::{Action, AnalogEffect, LogLevel, Notice, SingleValueCommand, StorageCommand, TelemetryKind};
use obc::faults::FaultReadings;
use obc::handler::{handle_packet, handle_tlv};
use obc::packet::TLV;
use obc::parser::parse_packet;
use obc::state::{ADCSStatus, OBCMode, OBCState, PayloadStatus};

fn calm() -> FaultReadings {
    FaultReadings { battery_low: false, overheated: false, rssi_weak: false, gyro_excessive: false }
}

fn run(bytes: &[u8], state: &mut OBCState) -> (bool, Vec<Action>) {
    let mut readings = calm();
    let mut actions = Vec::new();
    let tlv = TLV { typ: bytes[0], len: bytes[1] as u16, val: bytes[2..].to_vec() };
    let keep = handle_tlv(&tlv, state, &mut readings, &mut actions);
    (keep, actions)
}

#[test]
fn shutdown_stops_the_runtime() {
    let mut s = OBCState::new();
    let packet = parse_packet(&[0x01, 0x00], 0, 5).unwrap();
    let mut readings = calm();
    let mut actions = Vec::new();
    assert!(!handle_packet(packet, &mut s, &mut readings, &mut actions));
    assert_eq!(actions, vec![Action::Log(LogLevel::Warn, Notice::ShutdownRequested)]);
    assert_eq!(s, OBCState::new());
}

#[test]
fn mode_change_to_safe_and_back() {
    let mut s = OBCState::new();
    let (keep, a) = run(&[0x01, 0x01, 0x01], &mut s);
    assert!(keep);
    assert_eq!(s.mode, OBCMode::Safe);
    assert_eq!(a, vec![Action::Log(LogLevel::Info, Notice::ModeChanged)]);
    let (_, _) = run(&[0x01, 0x01, 0x00], &mut s);
    assert_eq!(s.mode, OBCMode::Normal);
}

#[test]
fn normal_mode_blocked_while_faulted() {
    let mut s = OBCState::new();
    s.mode = OBCMode::Safe;
    s.faults.comms_fault = true;
    let (keep, a) = run(&[0x01, 0x01, 0x00], &mut s);
    assert!(keep);
    assert_eq!(s.mode, OBCMode::Safe);
    assert_eq!(a, vec![Action::Log(LogLevel::Warn, Notice::ModeTransitionBlocked)]);
}

#[test]
fn system_command_malformed() {
    let mut s = OBCState::new();
    assert_eq!(run(&[0x01, 0x01, 0x05], &mut s).1, vec![Action::Log(LogLevel::Error, Notice::InvalidModeValue)]);
    assert_eq!(run(&[0x01, 0x02, 0x00, 0x00], &mut s).1, vec![Action::Log(LogLevel::Error, Notice::SystemInvalidLength)]);
    let tlv = TLV { typ: 0x01, len: 0, val: vec![0x01] };
    let mut r = calm();
    let mut a = Vec::new();
    assert!(handle_tlv(&tlv, &mut s, &mut r, &mut a));
    assert_eq!(a, vec![Action::Log(LogLevel::Error, Notice::SystemLengthMismatch)]);
}

#[test]
fn unknown_type_is_skipped() {
    let mut s = OBCState::new();
    let (keep, a) = run(&[0x42, 0x01, 0x00], &mut s);
    assert!(keep);
    assert_eq!(a, vec![Action::Log(LogLevel::Warn, Notice::RejectedCommandType)]);
}

#[test]
fn telemetry_reports_and_dump() {
    let mut s = OBCState::new();
    assert_eq!(run(&[0x02, 0x01, 0x00], &mut s).1, vec![Action::Report(TelemetryKind::Full, OBCState::new())]);
    assert_eq!(run(&[0x02, 0x01, 0x05], &mut s).1, vec![Action::Report(TelemetryKind::Adcs, OBCState::new())]);
    assert_eq!(run(&[0x02, 0x01, 0x06], &mut s).1, vec![Action::DumpErrorLogs]);
    assert_eq!(run(&[0x02, 0x01, 0x07], &mut s).1, vec![Action::Log(LogLevel::Error, Notice::InvalidTelemetryValue)]);
    assert_eq!(
        run(&[0x02, 0x00], &mut s).1,
        vec![Action::Log(LogLevel::Error, Notice::SingleValueRequired(SingleValueCommand::Telemetry))]
    );
    assert_eq!(s, OBCState::new());
}

#[test]
fn comms_commands() {
    let mut s = OBCState::new();
    run(&[0x03, 0x01, 0x00], &mut s);
    assert!(!s.comms.radio_on);
    s.comms.last_uplink_ms = 500;
    let mut readings = FaultReadings { rssi_weak: true, ..calm() };
    let mut a = Vec::new();
    let tlv = TLV { typ: 0x03, len: 1, val: vec![0x04] };
    handle_tlv(&tlv, &mut s, &mut readings, &mut a);
    assert!(s.comms.radio_on);
    assert_eq!(s.comms.last_uplink_ms, 0);
    assert!(!readings.rssi_weak);
    assert_eq!(
        a,
        vec![Action::Analog(AnalogEffect::RadioLinkReset), Action::Log(LogLevel::Info, Notice::RadioReset)]
    );
}

#[test]
fn payload_commands() {
    let mut s = OBCState::new();
    run(&[0x04, 0x01, 0x02], &mut s);
    assert!(s.payload.payload_on);
    assert_eq!(s.payload.status, PayloadStatus::Busy);
    run(&[0x04, 0x01, 0x00], &mut s);
    assert!(!s.payload.payload_on);
    assert_eq!(s.payload.status, PayloadStatus::Idle);
    assert_eq!(run(&[0x04, 0x01, 0x09], &mut s).1, vec![Action::Log(LogLevel::Error, Notice::InvalidPayloadValue)]);
}

#[test]
fn adcs_commands() {
    let mut s = OBCState::new();
    run(&[0x05, 0x01, 0x03], &mut s);
    assert_eq!(s.adcs.status, ADCSStatus::Nominal);
    let (_, a) = run(&[0x05, 0x01, 0x05], &mut s);
    assert_eq!(s.adcs.status, ADCSStatus::Safe);
    assert_eq!(a, vec![Action::Log(LogLevel::Warn, Notice::SafePointingSet)]);
}

#[test]
fn fault_injection_forces_safe_mode() {
    let mut s = OBCState::new();
    let mut readings = calm();
    let mut a = Vec::new();
    let tlv = TLV { typ: 0x07, len: 1, val: vec![0x01] };
    assert!(handle_tlv(&tlv, &mut s, &mut readings, &mut a));
    assert_eq!(s.mode, OBCMode::Safe);
    assert!(s.faults.power_fault);
    assert!(readings.battery_low);
    assert_eq!(
        a,
        vec![
            Action::Analog(AnalogEffect::BatteryCorrupted),
            Action::Record(LogLevel::Warn, Notice::MemoryCorruptionSimulated),
            Action::Log(LogLevel::Warn, Notice::SafeModeEnforced),
            Action::Log(LogLevel::Warn, Notice::FaultInjectionExecuted),
        ]
    );
}

#[test]
fn unknown_fault_test_changes_nothing_when_healthy() {
    let mut s = OBCState::new();
    let (_, a) = run(&[0x07, 0x01, 0x09], &mut s);
    assert_eq!(s, OBCState::new());
    assert_eq!(
        a,
        vec![
            Action::Record(LogLevel::Warn, Notice::UnknownFaultTest),
            Action::Log(LogLevel::Warn, Notice::FaultInjectionExecuted),
        ]
    );
}

#[test]
fn fault_management_resets() {
    let mut s = OBCState::new();
    run(&[0x07, 0x01, 0x06], &mut s);
    assert!(s.faults.payload_fault && s.faults.comms_fault);
    assert_eq!(s.mode, OBCMode::Safe);
    run(&[0x06, 0x01, 0x02], &mut s);
    assert!(!s.faults.comms_fault);
    assert!(s.faults.payload_fault);
    run(&[0x06, 0x01, 0x00], &mut s);
    assert!(!s.faults.payload_fault);
    assert_eq!(s.mode, OBCMode::Safe);
    run(&[0x06, 0x01, 0x01], &mut s);
    let mut expected = OBCState::new();
    expected.mode = OBCMode::Safe;
    assert_eq!(s, expected);
}

#[test]
fn storage_commands_request_storage_work() {
    let mut s = OBCState::new();
    assert_eq!(run(&[0x08, 0x00], &mut s).1, vec![Action::Storage(StorageCommand::Dump)]);
    assert_eq!(run(&[0x08, 0x01, 0x02], &mut s).1, vec![Action::Storage(StorageCommand::Corrupt)]);
    assert_eq!(run(&[0x08, 0x01, 0x03], &mut s).1, vec![Action::Storage(StorageCommand::RestoreDefaults)]);
    assert_eq!(run(&[0x08, 0x01, 0x04], &mut s).1, vec![Action::Log(LogLevel::Error, Notice::InvalidStorageValue)]);
    assert_eq!(run(&[0x08, 0x02, 0x00, 0x00], &mut s).1, vec![Action::Log(LogLevel::Error, Notice::StorageInvalidLength)]);
}

#[test]
fn packet_stops_after_shutdown() {
    let mut s = OBCState::new();
    let mut readings = calm();
    let mut actions = Vec::new();
    let packet = obc::packet::Packet {
        timestamp: 0,
        seq: 0,
        tlvs: vec![
            TLV { typ: 0x01, len: 0, val: vec![] },
            TLV { typ: 0x01, len: 1, val: vec![0x01] },
        ],
    };
    assert!(!handle_packet(packet, &mut s, &mut readings, &mut actions));
    assert_eq!(s.mode, OBCMode::Normal);
    assert_eq!(actions.len(), 1);
}

#[test]
fn notice_texts() {
    assert_eq!(Notice::ShutdownRequested.text(), "Shutdown requested via 01 00");
    assert_eq!(Notice::SingleValueRequired(SingleValueCommand::Adcs).text(), "ADCS command requires length 0x01");
    assert_eq!(Notice::BitFlipSimulated.text(), "Bit flip simulation: [1, 0, 0]");
    assert_eq!(LogLevel::Error.tag(), "ERROR");
}

#[test]
fn faults_stay_latched_until_fault_management() {
    let mut s = OBCState::new();
    s.faults.comms_fault = true;
    s.faults.adcs_fault = true;
    // Radio reset and ADCS commands do not clear the latched faults.
    run(&[0x03, 0x01, 0x04], &mut s);
    run(&[0x05, 0x01, 0x01], &mut s);
    run(&[0x01, 0x01, 0x01], &mut s);
    assert!(s.faults.comms_fault && s.faults.adcs_fault);
    run(&[0x06, 0x01, 0x04], &mut s);
    assert!(!s.faults.adcs_fault);
    assert!(s.faults.comms_fault);
}
