use vstd::prelude::*;

use crate::actions::{
    Action, AnalogEffect, LogLevel, Notice, SingleValueCommand, StorageCommand, TelemetryKind,
};
use crate::commands::{command_type_of, CommandType};
use crate::faults::{
    after_fault_evaluation, apply_analog_effect, evaluate_faults, fault_test_outcome,
    has_active_faults, readings_after, run_fault_test, clear_faults, FaultReadings,
};
use crate::modes::{transition_allowed, valid_transition};
use crate::packet::{Packet, TLVView, TLV};
use crate::state::{
    PowerMode, PowerState, any_fault, initial_adcs, initial_comms, initial_payload, initial_state, no_faults, ADCSState,
    ADCSStatus, CommsState, FaultsState, OBCMode, OBCState, PayloadState, PayloadStatus,
};

verus! {

/// What handling one command, or a run of commands, comes to: the discrete
/// state and threshold checks after it, whether the runtime keeps running,
/// and the outside work to do, in order.
pub struct Step {
    pub state: OBCState,
    pub readings: FaultReadings,
    pub running: bool,
    pub actions: Seq<Action>,
}

/// A step that changes nothing and logs one notice at the packet's time.
pub open spec fn log_only(s: OBCState, r: FaultReadings, level: LogLevel, n: Notice) -> Step {
    Step { state: s, readings: r, running: true, actions: seq![Action::Log(level, n)] }
}

/// Whether a TLV carries exactly one value byte, as most commands must.
pub open spec fn single_value(t: TLVView) -> bool {
    t.len == 1 && t.val.len() == 1
}

/// System command: `01 00` asks for shutdown, `01 01 00` for NORMAL mode and
/// `01 01 01` for SAFE mode, subject to the mode transition rule.
pub open spec fn system_step(s: OBCState, r: FaultReadings, t: TLVView) -> Step {
    if t.len == 0 {
        if t.val.len() != 0 {
            log_only(s, r, LogLevel::Error, Notice::SystemLengthMismatch)
        } else {
            Step {
                state: s,
                readings: r,
                running: false,
                actions: seq![Action::Log(LogLevel::Warn, Notice::ShutdownRequested)],
            }
        }
    } else if t.len != 1 {
        log_only(s, r, LogLevel::Error, Notice::SystemInvalidLength)
    } else if t.val.len() != 1 {
        log_only(s, r, LogLevel::Error, Notice::SystemLengthMismatch)
    } else if t.val[0] > 1 {
        log_only(s, r, LogLevel::Error, Notice::InvalidModeValue)
    } else {
        let requested = if t.val[0] == 0 { OBCMode::Normal } else { OBCMode::Safe };
        if transition_allowed(s.mode, requested, any_fault(s.faults)) {
            log_only(OBCState { mode: requested, ..s }, r, LogLevel::Info, Notice::ModeChanged)
        } else {
            log_only(s, r, LogLevel::Warn, Notice::ModeTransitionBlocked)
        }
    }
}

/// Telemetry command: values 0x00 to 0x05 ask for a report, 0x06 for an error
/// log dump. It changes no state.
pub open spec fn telemetry_step(s: OBCState, r: FaultReadings, t: TLVView) -> Step {
    if !single_value(t) {
        log_only(s, r, LogLevel::Error, Notice::SingleValueRequired(SingleValueCommand::Telemetry))
    } else {
        let a = match t.val[0] {
            0x00 => Action::Report(TelemetryKind::Full, s),
            0x01 => Action::Report(TelemetryKind::Power, s),
            0x02 => Action::Report(TelemetryKind::Temps, s),
            0x03 => Action::Report(TelemetryKind::Comms, s),
            0x04 => Action::Report(TelemetryKind::Payload, s),
            0x05 => Action::Report(TelemetryKind::Adcs, s),
            0x06 => Action::DumpErrorLogs,
            _ => Action::Log(LogLevel::Error, Notice::InvalidTelemetryValue),
        };
        Step { state: s, readings: r, running: true, actions: seq![a] }
    }
}

/// Comms command: radio off (0x00), on (0x01), transmit (0x02), receive
/// (0x03), or reset (0x04: radio on, counters zero, signal nominal).
pub open spec fn comms_step(s: OBCState, r: FaultReadings, t: TLVView) -> Step {
    if !single_value(t) {
        log_only(s, r, LogLevel::Error, Notice::SingleValueRequired(SingleValueCommand::Comms))
    } else {
        match t.val[0] {
            0x00 => log_only(
                OBCState { comms: CommsState { radio_on: false, ..s.comms }, ..s },
                r,
                LogLevel::Warn,
                Notice::RadioDisabled,
            ),
            0x01 => log_only(
                OBCState { comms: CommsState { radio_on: true, ..s.comms }, ..s },
                r,
                LogLevel::Info,
                Notice::RadioEnabled,
            ),
            0x02 => log_only(s, r, LogLevel::Info, Notice::TransmitMode),
            0x03 => log_only(s, r, LogLevel::Info, Notice::ReceiveMode),
            0x04 => Step {
                state: OBCState { comms: initial_comms(), ..s },
                readings: readings_after(r, AnalogEffect::RadioLinkReset),
                running: true,
                actions: seq![
                    Action::Analog(AnalogEffect::RadioLinkReset),
                    Action::Log(LogLevel::Info, Notice::RadioReset),
                ],
            },
            _ => log_only(s, r, LogLevel::Error, Notice::InvalidCommsValue),
        }
    }
}

/// Payload command: disable (0x00), enable (0x01), start capture (0x02),
/// stop capture (0x03), clear buffer (0x04). It never stops the runtime.
pub open spec fn payload_step(s: OBCState, r: FaultReadings, t: TLVView) -> Step {
    if !single_value(t) {
        log_only(s, r, LogLevel::Error, Notice::SingleValueRequired(SingleValueCommand::Payload))
    } else {
        match t.val[0] {
            0x00 => log_only(
                OBCState { payload: PayloadState { payload_on: false, status: PayloadStatus::Idle }, ..s },
                r,
                LogLevel::Warn,
                Notice::PayloadDisabled,
            ),
            0x01 => log_only(
                OBCState { payload: PayloadState { payload_on: true, status: PayloadStatus::Idle }, ..s },
                r,
                LogLevel::Info,
                Notice::PayloadEnabled,
            ),
            0x02 => log_only(
                OBCState { payload: PayloadState { payload_on: true, status: PayloadStatus::Busy }, ..s },
                r,
                LogLevel::Info,
                Notice::CaptureStarted,
            ),
            0x03 => log_only(
                OBCState { payload: PayloadState { status: PayloadStatus::Idle, ..s.payload }, ..s },
                r,
                LogLevel::Info,
                Notice::CaptureStopped,
            ),
            0x04 => log_only(s, r, LogLevel::Info, Notice::BufferClearRequested),
            _ => log_only(s, r, LogLevel::Error, Notice::InvalidPayloadValue),
        }
    }
}

/// The ADCS mode with which an ADCS command value is accepted, and its notice.
pub open spec fn adcs_target(v: u8) -> Option<(ADCSStatus, LogLevel, Notice)> {
    match v {
        0x00 => Some((ADCSStatus::Safe, LogLevel::Warn, Notice::AdcsDisabled)),
        0x01 => Some((ADCSStatus::Nominal, LogLevel::Info, Notice::AdcsEnabled)),
        0x02 => Some((ADCSStatus::Detumble, LogLevel::Info, Notice::DetumbleSet)),
        0x03 => Some((ADCSStatus::Nominal, LogLevel::Info, Notice::SunPointingSet)),
        0x04 => Some((ADCSStatus::Nominal, LogLevel::Info, Notice::NadirPointingSet)),
        0x05 => Some((ADCSStatus::Safe, LogLevel::Warn, Notice::SafePointingSet)),
        _ => None,
    }
}

/// ADCS command: sets the attitude mode that the value names.
pub open spec fn adcs_step(s: OBCState, r: FaultReadings, t: TLVView) -> Step {
    if !single_value(t) {
        log_only(s, r, LogLevel::Error, Notice::SingleValueRequired(SingleValueCommand::Adcs))
    } else {
        match adcs_target(t.val[0]) {
            Some((status, level, n)) => log_only(
                OBCState { adcs: ADCSState { status }, ..s },
                r,
                level,
                n,
            ),
            None => log_only(s, r, LogLevel::Error, Notice::InvalidAdcsValue),
        }
    }
}

/// Fault management command: clear all faults (0x00), reset every subsystem
/// but keep the mode (0x01), or reset comms (0x02), payload (0x03) or ADCS
/// (0x04) together with that subsystem's fault flag.
pub open spec fn fault_management_step(s: OBCState, r: FaultReadings, t: TLVView) -> Step {
    if !single_value(t) {
        log_only(
            s,
            r,
            LogLevel::Error,
            Notice::SingleValueRequired(SingleValueCommand::FaultManagement),
        )
    } else {
        match t.val[0] {
            0x00 => log_only(OBCState { faults: no_faults(), ..s }, r, LogLevel::Info, Notice::FaultsCleared),
            0x01 => Step {
                state: OBCState { mode: s.mode, ..initial_state() },
                readings: readings_after(r, AnalogEffect::AllReset),
                running: true,
                actions: seq![
                    Action::Analog(AnalogEffect::AllReset),
                    Action::Log(LogLevel::Info, Notice::SubsystemsReset),
                ],
            },
            0x02 => Step {
                state: OBCState {
                    comms: initial_comms(),
                    faults: FaultsState { comms_fault: false, ..s.faults },
                    ..s
                },
                readings: readings_after(r, AnalogEffect::RadioLinkReset),
                running: true,
                actions: seq![
                    Action::Analog(AnalogEffect::RadioLinkReset),
                    Action::Log(LogLevel::Info, Notice::CommsReset),
                ],
            },
            0x03 => log_only(
                OBCState {
                    payload: initial_payload(),
                    faults: FaultsState { payload_fault: false, ..s.faults },
                    ..s
                },
                r,
                LogLevel::Info,
                Notice::PayloadReset,
            ),
            0x04 => Step {
                state: OBCState {
                    adcs: initial_adcs(),
                    faults: FaultsState { adcs_fault: false, ..s.faults },
                    ..s
                },
                readings: readings_after(r, AnalogEffect::AttitudeReset),
                running: true,
                actions: seq![
                    Action::Analog(AnalogEffect::AttitudeReset),
                    Action::Log(LogLevel::Info, Notice::AdcsReset),
                ],
            },
            _ => log_only(s, r, LogLevel::Error, Notice::InvalidFaultManagementValue),
        }
    }
}

/// Fault injection command: runs the fault test that the value names, then
/// fault detection, which forces SAFE mode when a fault is active.
pub open spec fn fault_injection_step(s: OBCState, r: FaultReadings, t: TLVView) -> Step {
    if !single_value(t) {
        log_only(
            s,
            r,
            LogLevel::Error,
            Notice::SingleValueRequired(SingleValueCommand::FaultInjection),
        )
    } else {
        let (s1, r1, a1) = fault_test_outcome(s, r, t.val[0]);
        let s2 = after_fault_evaluation(s1, r1);
        let enforced: Seq<Action> = if any_fault(s2.faults) {
            seq![Action::Log(LogLevel::Warn, Notice::SafeModeEnforced)]
        } else {
            seq![]
        };
        Step {
            state: s2,
            readings: r1,
            running: true,
            actions: a1 + enforced + seq![Action::Log(LogLevel::Warn, Notice::FaultInjectionExecuted)],
        }
    }
}

/// The storage operation that a one-byte storage command names.
pub open spec fn storage_command_of(v: u8) -> Option<StorageCommand> {
    match v {
        0x00 => Some(StorageCommand::Clear),
        0x01 => Some(StorageCommand::WriteTestData),
        0x02 => Some(StorageCommand::Corrupt),
        0x03 => Some(StorageCommand::RestoreDefaults),
        _ => None,
    }
}

/// Storage command: `08 00` dumps the storage file; `08 01 xx` clears it
/// (0x00), appends test data (0x01), corrupts it (0x02) or restores the
/// defaults (0x03). It changes no state.
pub open spec fn storage_step(s: OBCState, r: FaultReadings, t: TLVView) -> Step {
    if t.len == 0 {
        Step { state: s, readings: r, running: true, actions: seq![Action::Storage(StorageCommand::Dump)] }
    } else if t.len == 1 {
        if t.val.len() != 1 {
            log_only(s, r, LogLevel::Error, Notice::StorageLengthMismatch)
        } else {
            match storage_command_of(t.val[0]) {
                Some(c) => Step { state: s, readings: r, running: true, actions: seq![Action::Storage(c)] },
                None => log_only(s, r, LogLevel::Error, Notice::InvalidStorageValue),
            }
        }
    } else {
        log_only(s, r, LogLevel::Error, Notice::StorageInvalidLength)
    }
}

/// Handling one command: an unknown type is logged and skipped; every other
/// type goes to its own handler.
#[verifier::opaque]
pub open spec fn tlv_step(s: OBCState, r: FaultReadings, t: TLVView) -> Step {
    match command_type_of(t.typ) {
        None => log_only(s, r, LogLevel::Warn, Notice::RejectedCommandType),
        Some(CommandType::System) => system_step(s, r, t),
        Some(CommandType::Telemetry) => telemetry_step(s, r, t),
        Some(CommandType::Comms) => comms_step(s, r, t),
        Some(CommandType::Payload) => payload_step(s, r, t),
        Some(CommandType::Adcs) => adcs_step(s, r, t),
        Some(CommandType::FaultManagement) => fault_management_step(s, r, t),
        Some(CommandType::FaultInjection) => fault_injection_step(s, r, t),
        Some(CommandType::Storage) => storage_step(s, r, t),
    }
}

/// Handling a packet's commands in order, stopping after the first one that
/// ends the runtime.
pub open spec fn packet_step(s: OBCState, r: FaultReadings, tlvs: Seq<TLVView>) -> Step
    decreases tlvs.len(),
{
    if tlvs.len() == 0 {
        Step { state: s, readings: r, running: true, actions: seq![] }
    } else {
        let first = tlv_step(s, r, tlvs[0]);
        if !first.running {
            first
        } else {
            let rest = packet_step(first.state, first.readings, tlvs.drop_first());
            Step { actions: first.actions + rest.actions, ..rest }
        }
    }
}

fn require_single_value_len(tlv: &TLV, command: SingleValueCommand, actions: &mut Vec<Action>) -> (r: bool)
    ensures
        r == single_value(tlv@),
        r ==> final(actions)@ == old(actions)@,
        !r ==> final(actions)@ == old(actions)@.push(
            Action::Log(LogLevel::Error, Notice::SingleValueRequired(command)),
        ),
{
    if tlv.len != 1 || tlv.val.len() != 1 {
        actions.push(Action::Log(LogLevel::Error, Notice::SingleValueRequired(command)));
        return false;
    }
    true
}

fn handle_system_command(
    tlv: &TLV,
    state: &mut OBCState,
    readings: &FaultReadings,
    actions: &mut Vec<Action>,
) -> (r: bool)
    ensures
        *final(state) == system_step(*old(state), *readings, tlv@).state,
        r == system_step(*old(state), *readings, tlv@).running,
        final(actions)@ == old(actions)@ + system_step(*old(state), *readings, tlv@).actions,
{
    let ghost a0 = actions@;
    match tlv.len {
        0 => {
            if tlv.val.len() != 0 {
                actions.push(Action::Log(LogLevel::Error, Notice::SystemLengthMismatch));
                assert(actions@ =~= a0 + system_step(*old(state), *readings, tlv@).actions);
                return true;
            }
            actions.push(Action::Log(LogLevel::Warn, Notice::ShutdownRequested));
            assert(actions@ =~= a0 + system_step(*old(state), *readings, tlv@).actions);
            return false;
        },
        1 => {},
        _ => {
            actions.push(Action::Log(LogLevel::Error, Notice::SystemInvalidLength));
            assert(actions@ =~= a0 + system_step(*old(state), *readings, tlv@).actions);
            return true;
        },
    }
    if tlv.val.len() != 1 {
        actions.push(Action::Log(LogLevel::Error, Notice::SystemLengthMismatch));
        assert(actions@ =~= a0 + system_step(*old(state), *readings, tlv@).actions);
        return true;
    }
    let requested_mode = match tlv.val[0] {
        0x00 => OBCMode::Normal,
        0x01 => OBCMode::Safe,
        _ => {
            actions.push(Action::Log(LogLevel::Error, Notice::InvalidModeValue));
            assert(actions@ =~= a0 + system_step(*old(state), *readings, tlv@).actions);
            return true;
        },
    };
    let faults_active = has_active_faults(state);
    if valid_transition(state.mode, requested_mode, faults_active) {
        state.mode = requested_mode;
        actions.push(Action::Log(LogLevel::Info, Notice::ModeChanged));
    } else {
        actions.push(Action::Log(LogLevel::Warn, Notice::ModeTransitionBlocked));
    }
    assert(actions@ =~= a0 + system_step(*old(state), *readings, tlv@).actions);
    true
}

fn handle_telemetry_command(
    tlv: &TLV,
    state: &OBCState,
    readings: &FaultReadings,
    actions: &mut Vec<Action>,
)
    ensures
        final(actions)@ == old(actions)@ + telemetry_step(*state, *readings, tlv@).actions,
{
    let ghost a0 = actions@;
    if !require_single_value_len(tlv, SingleValueCommand::Telemetry, actions) {
        assert(actions@ =~= a0 + telemetry_step(*state, *readings, tlv@).actions);
        return;
    }
    let a = match tlv.val[0] {
        0x00 => Action::Report(TelemetryKind::Full, *state),
        0x01 => Action::Report(TelemetryKind::Power, *state),
        0x02 => Action::Report(TelemetryKind::Temps, *state),
        0x03 => Action::Report(TelemetryKind::Comms, *state),
        0x04 => Action::Report(TelemetryKind::Payload, *state),
        0x05 => Action::Report(TelemetryKind::Adcs, *state),
        0x06 => Action::DumpErrorLogs,
        _ => Action::Log(LogLevel::Error, Notice::InvalidTelemetryValue),
    };
    actions.push(a);
    assert(actions@ =~= a0 + telemetry_step(*state, *readings, tlv@).actions);
}

fn handle_comms_command(
    tlv: &TLV,
    state: &mut OBCState,
    readings: &mut FaultReadings,
    actions: &mut Vec<Action>,
)
    ensures
        *final(state) == comms_step(*old(state), *old(readings), tlv@).state,
        *final(readings) == comms_step(*old(state), *old(readings), tlv@).readings,
        final(actions)@ == old(actions)@ + comms_step(*old(state), *old(readings), tlv@).actions,
{
    let ghost a0 = actions@;
    if !require_single_value_len(tlv, SingleValueCommand::Comms, actions) {
        assert(actions@ =~= a0 + comms_step(*old(state), *old(readings), tlv@).actions);
        return;
    }
    match tlv.val[0] {
        0x00 => {
            state.comms.radio_on = false;
            actions.push(Action::Log(LogLevel::Warn, Notice::RadioDisabled));
        },
        0x01 => {
            state.comms.radio_on = true;
            actions.push(Action::Log(LogLevel::Info, Notice::RadioEnabled));
        },
        0x02 => actions.push(Action::Log(LogLevel::Info, Notice::TransmitMode)),
        0x03 => actions.push(Action::Log(LogLevel::Info, Notice::ReceiveMode)),
        0x04 => {
            state.comms.radio_on = true;
            actions.push(Action::Analog(AnalogEffect::RadioLinkReset));
            apply_analog_effect(readings, AnalogEffect::RadioLinkReset);
            state.comms.last_uplink_ms = 0;
            state.comms.last_downlink_ms = 0;
            actions.push(Action::Log(LogLevel::Info, Notice::RadioReset));
        },
        _ => actions.push(Action::Log(LogLevel::Error, Notice::InvalidCommsValue)),
    }
    assert(actions@ =~= a0 + comms_step(*old(state), *old(readings), tlv@).actions);
}

fn handle_payload_command(
    tlv: &TLV,
    state: &mut OBCState,
    readings: &FaultReadings,
    actions: &mut Vec<Action>,
) -> (r: bool)
    ensures
        *final(state) == payload_step(*old(state), *readings, tlv@).state,
        r == payload_step(*old(state), *readings, tlv@).running,
        final(actions)@ == old(actions)@ + payload_step(*old(state), *readings, tlv@).actions,
{
    let ghost a0 = actions@;
    if !require_single_value_len(tlv, SingleValueCommand::Payload, actions) {
        assert(actions@ =~= a0 + payload_step(*old(state), *readings, tlv@).actions);
        return true;
    }
    match tlv.val[0] {
        0x00 => {
            state.payload.payload_on = false;
            state.payload.status = PayloadStatus::Idle;
            actions.push(Action::Log(LogLevel::Warn, Notice::PayloadDisabled));
        },
        0x01 => {
            state.payload.payload_on = true;
            state.payload.status = PayloadStatus::Idle;
            actions.push(Action::Log(LogLevel::Info, Notice::PayloadEnabled));
        },
        0x02 => {
            state.payload.payload_on = true;
            state.payload.status = PayloadStatus::Busy;
            actions.push(Action::Log(LogLevel::Info, Notice::CaptureStarted));
        },
        0x03 => {
            state.payload.status = PayloadStatus::Idle;
            actions.push(Action::Log(LogLevel::Info, Notice::CaptureStopped));
        },
        0x04 => actions.push(Action::Log(LogLevel::Info, Notice::BufferClearRequested)),
        _ => actions.push(Action::Log(LogLevel::Error, Notice::InvalidPayloadValue)),
    }
    assert(actions@ =~= a0 + payload_step(*old(state), *readings, tlv@).actions);
    true
}

fn handle_adcs_command(
    tlv: &TLV,
    state: &mut OBCState,
    readings: &FaultReadings,
    actions: &mut Vec<Action>,
)
    ensures
        *final(state) == adcs_step(*old(state), *readings, tlv@).state,
        final(actions)@ == old(actions)@ + adcs_step(*old(state), *readings, tlv@).actions,
{
    let ghost a0 = actions@;
    if !require_single_value_len(tlv, SingleValueCommand::Adcs, actions) {
        assert(actions@ =~= a0 + adcs_step(*old(state), *readings, tlv@).actions);
        return;
    }
    match tlv.val[0] {
        0x00 => {
            state.adcs.status = ADCSStatus::Safe;
            actions.push(Action::Log(LogLevel::Warn, Notice::AdcsDisabled));
        },
        0x01 => {
            state.adcs.status = ADCSStatus::Nominal;
            actions.push(Action::Log(LogLevel::Info, Notice::AdcsEnabled));
        },
        0x02 => {
            state.adcs.status = ADCSStatus::Detumble;
            actions.push(Action::Log(LogLevel::Info, Notice::DetumbleSet));
        },
        0x03 => {
            state.adcs.status = ADCSStatus::Nominal;
            actions.push(Action::Log(LogLevel::Info, Notice::SunPointingSet));
        },
        0x04 => {
            state.adcs.status = ADCSStatus::Nominal;
            actions.push(Action::Log(LogLevel::Info, Notice::NadirPointingSet));
        },
        0x05 => {
            state.adcs.status = ADCSStatus::Safe;
            actions.push(Action::Log(LogLevel::Warn, Notice::SafePointingSet));
        },
        _ => actions.push(Action::Log(LogLevel::Error, Notice::InvalidAdcsValue)),
    }
    assert(actions@ =~= a0 + adcs_step(*old(state), *readings, tlv@).actions);
}

fn handle_fault_management_command(
    tlv: &TLV,
    state: &mut OBCState,
    readings: &mut FaultReadings,
    actions: &mut Vec<Action>,
)
    ensures
        *final(state) == fault_management_step(*old(state), *old(readings), tlv@).state,
        *final(readings) == fault_management_step(*old(state), *old(readings), tlv@).readings,
        final(actions)@ == old(actions)@ + fault_management_step(
            *old(state),
            *old(readings),
            tlv@,
        ).actions,
{
    let ghost a0 = actions@;
    if !require_single_value_len(tlv, SingleValueCommand::FaultManagement, actions) {
        assert(actions@ =~= a0 + fault_management_step(*old(state), *old(readings), tlv@).actions);
        return;
    }
    match tlv.val[0] {
        0x00 => {
            clear_faults(state);
            actions.push(Action::Log(LogLevel::Info, Notice::FaultsCleared));
        },
        0x01 => {
            let mode = state.mode;
            *state = OBCState::new();
            state.mode = mode;
            actions.push(Action::Analog(AnalogEffect::AllReset));
            apply_analog_effect(readings, AnalogEffect::AllReset);
            actions.push(Action::Log(LogLevel::Info, Notice::SubsystemsReset));
        },
        0x02 => {
            state.comms.radio_on = true;
            actions.push(Action::Analog(AnalogEffect::RadioLinkReset));
            apply_analog_effect(readings, AnalogEffect::RadioLinkReset);
            state.comms.last_uplink_ms = 0;
            state.comms.last_downlink_ms = 0;
            state.faults.comms_fault = false;
            actions.push(Action::Log(LogLevel::Info, Notice::CommsReset));
        },
        0x03 => {
            state.payload.payload_on = true;
            state.payload.status = PayloadStatus::Idle;
            state.faults.payload_fault = false;
            actions.push(Action::Log(LogLevel::Info, Notice::PayloadReset));
        },
        0x04 => {
            state.adcs.status = ADCSStatus::Detumble;
            actions.push(Action::Analog(AnalogEffect::AttitudeReset));
            apply_analog_effect(readings, AnalogEffect::AttitudeReset);
            state.faults.adcs_fault = false;
            actions.push(Action::Log(LogLevel::Info, Notice::AdcsReset));
        },
        _ => actions.push(Action::Log(LogLevel::Error, Notice::InvalidFaultManagementValue)),
    }
    assert(actions@ =~= a0 + fault_management_step(*old(state), *old(readings), tlv@).actions);
}

fn handle_fault_injection_command(
    tlv: &TLV,
    state: &mut OBCState,
    readings: &mut FaultReadings,
    actions: &mut Vec<Action>,
)
    ensures
        *final(state) == fault_injection_step(*old(state), *old(readings), tlv@).state,
        *final(readings) == fault_injection_step(*old(state), *old(readings), tlv@).readings,
        final(actions)@ == old(actions)@ + fault_injection_step(
            *old(state),
            *old(readings),
            tlv@,
        ).actions,
{
    let ghost a0 = actions@;
    if !require_single_value_len(tlv, SingleValueCommand::FaultInjection, actions) {
        assert(actions@ =~= a0 + fault_injection_step(*old(state), *old(readings), tlv@).actions);
        return;
    }
    run_fault_test(state, readings, tlv.val[0], actions);
    let ghost a1 = actions@;
    if evaluate_faults(state, readings) {
        actions.push(Action::Log(LogLevel::Warn, Notice::SafeModeEnforced));
    }
    actions.push(Action::Log(LogLevel::Warn, Notice::FaultInjectionExecuted));
    assert(actions@ =~= a0 + fault_injection_step(*old(state), *old(readings), tlv@).actions);
}

fn handle_storage_command(tlv: &TLV, actions: &mut Vec<Action>)
    ensures
        forall|s: OBCState, r: FaultReadings|
            final(actions)@ == old(actions)@ + #[trigger] storage_step(s, r, tlv@).actions,
{
    let ghost a0 = actions@;
    match tlv.len {
        0 => actions.push(Action::Storage(StorageCommand::Dump)),
        1 => {
            if tlv.val.len() != 1 {
                actions.push(Action::Log(LogLevel::Error, Notice::StorageLengthMismatch));
            } else {
                match tlv.val[0] {
                    0x00 => actions.push(Action::Storage(StorageCommand::Clear)),
                    0x01 => actions.push(Action::Storage(StorageCommand::WriteTestData)),
                    0x02 => actions.push(Action::Storage(StorageCommand::Corrupt)),
                    0x03 => actions.push(Action::Storage(StorageCommand::RestoreDefaults)),
                    _ => actions.push(Action::Log(LogLevel::Error, Notice::InvalidStorageValue)),
                }
            }
        },
        _ => actions.push(Action::Log(LogLevel::Error, Notice::StorageInvalidLength)),
    }
    assert forall|s: OBCState, r: FaultReadings|
        actions@ == a0 + #[trigger] storage_step(s, r, tlv@).actions by {
        assert(actions@ =~= a0 + storage_step(s, r, tlv@).actions);
    }
}

/// Handles one command: updates the state and the threshold checks, appends
/// the outside work it asks for, and returns whether the runtime keeps running.
pub fn handle_tlv(
    tlv: &TLV,
    state: &mut OBCState,
    readings: &mut FaultReadings,
    actions: &mut Vec<Action>,
) -> (r: bool)
    ensures
        *final(state) == tlv_step(*old(state), *old(readings), tlv@).state,
        *final(readings) == tlv_step(*old(state), *old(readings), tlv@).readings,
        r == tlv_step(*old(state), *old(readings), tlv@).running,
        final(actions)@ == old(actions)@ + tlv_step(*old(state), *old(readings), tlv@).actions,
{
    reveal(tlv_step);
    let command = match CommandType::from_byte(tlv.typ) {
        Some(cmd) => cmd,
        None => {
            actions.push(Action::Log(LogLevel::Warn, Notice::RejectedCommandType));
            return true;
        },
    };
    match command {
        CommandType::System => handle_system_command(tlv, state, readings, actions),
        CommandType::Telemetry => {
            handle_telemetry_command(tlv, state, readings, actions);
            true
        },
        CommandType::Comms => {
            handle_comms_command(tlv, state, readings, actions);
            true
        },
        CommandType::Payload => handle_payload_command(tlv, state, readings, actions),
        CommandType::Adcs => {
            handle_adcs_command(tlv, state, readings, actions);
            true
        },
        CommandType::FaultManagement => {
            handle_fault_management_command(tlv, state, readings, actions);
            true
        },
        CommandType::FaultInjection => {
            handle_fault_injection_command(tlv, state, readings, actions);
            true
        },
        CommandType::Storage => {
            handle_storage_command(tlv, actions);
            true
        },
    }
}

proof fn lemma_packet_step_first(s: OBCState, r: FaultReadings, tlvs: Seq<TLVView>)
    requires
        tlvs.len() > 0,
    ensures
        !tlv_step(s, r, tlvs[0]).running ==> packet_step(s, r, tlvs) == tlv_step(s, r, tlvs[0]),
        tlv_step(s, r, tlvs[0]).running ==> packet_step(s, r, tlvs) == (Step {
            actions: tlv_step(s, r, tlvs[0]).actions + packet_step(
                tlv_step(s, r, tlvs[0]).state,
                tlv_step(s, r, tlvs[0]).readings,
                tlvs.drop_first(),
            ).actions,
            ..packet_step(
                tlv_step(s, r, tlvs[0]).state,
                tlv_step(s, r, tlvs[0]).readings,
                tlvs.drop_first(),
            )
        }),
{
}

/// Handles a packet's commands in order and returns whether the runtime keeps
/// running; it stops at the first command that ends the runtime.
pub fn handle_packet(
    packet: Packet,
    state: &mut OBCState,
    readings: &mut FaultReadings,
    actions: &mut Vec<Action>,
) -> (r: bool)
    ensures
        *final(state) == packet_step(*old(state), *old(readings), packet@.tlvs).state,
        *final(readings) == packet_step(*old(state), *old(readings), packet@.tlvs).readings,
        r == packet_step(*old(state), *old(readings), packet@.tlvs).running,
        final(actions)@ == old(actions)@ + packet_step(*old(state), *old(readings), packet@.tlvs).actions,
{
    let ghost s0 = *state;
    let ghost r0 = *readings;
    let ghost a0 = actions@;
    let ghost tlvs = packet@.tlvs;
    let ghost mut done: Seq<Action> = seq![];
    let mut i: usize = 0;
    assert(tlvs.skip(0) =~= tlvs);
    assert(actions@ =~= a0 + done);
    while i < packet.tlvs.len()
        invariant
            0 <= i <= packet.tlvs@.len(),
            tlvs == packet@.tlvs,
            tlvs.len() == packet.tlvs@.len(),
            s0 == *old(state),
            r0 == *old(readings),
            a0 == old(actions)@,
            actions@ == a0 + done,
            packet_step(s0, r0, tlvs).state == packet_step(*state, *readings, tlvs.skip(i as int)).state,
            packet_step(s0, r0, tlvs).readings == packet_step(*state, *readings, tlvs.skip(i as int)).readings,
            packet_step(s0, r0, tlvs).running == packet_step(*state, *readings, tlvs.skip(i as int)).running,
            packet_step(s0, r0, tlvs).actions == done + packet_step(*state, *readings, tlvs.skip(i as int)).actions,
        decreases packet.tlvs@.len() - i,
    {
        let ghost sb = *state;
        let ghost rb = *readings;
        let ghost rest = tlvs.skip(i as int);
        let ghost prev = done;
        assert(packet_step(s0, r0, tlvs).actions == prev + packet_step(sb, rb, rest).actions);
        assert(packet_step(s0, r0, tlvs).state == packet_step(sb, rb, rest).state);
        assert(rest[0] == packet.tlvs@[i as int]@);
        assert(rest.drop_first() =~= tlvs.skip(i + 1));
        proof {
            lemma_packet_step_first(sb, rb, rest);
        }
        let keep = handle_tlv(&packet.tlvs[i], state, readings, actions);
        proof {
            let st = tlv_step(sb, rb, rest[0]);
            assert(done + (st.actions + packet_step(st.state, st.readings, tlvs.skip(i + 1)).actions)
                =~= (done + st.actions) + packet_step(st.state, st.readings, tlvs.skip(i + 1)).actions);
            done = done + st.actions;
            assert(actions@ =~= a0 + done);
        }
        if !keep {
            assert(packet_step(sb, rb, rest) == tlv_step(sb, rb, rest[0]));
            assert(packet_step(s0, r0, tlvs).actions =~= done);
            return false;
        }
        i = i + 1;
    }
    assert(tlvs.skip(i as int) =~= Seq::<TLVView>::empty());
    assert(done + seq![] =~= done);
    true
}

/// Law: the only command that ends the runtime is the bare system command
/// `01 00` (type 0x01, length 0, no value).
pub proof fn lemma_only_shutdown_stops(s: OBCState, r: FaultReadings, t: TLVView)
    ensures
        !tlv_step(s, r, t).running <==> (t.typ == 0x01 && t.len == 0 && t.val.len() == 0),
{
    reveal(tlv_step);
}

/// Law: a fault flag, once set, is cleared only by a fault management command
/// (type 0x06); every other command leaves each set flag set.
pub proof fn lemma_faults_latch_until_managed(s: OBCState, r: FaultReadings, t: TLVView)
    requires
        t.typ != 0x06,
    ensures
        s.faults.power_fault ==> tlv_step(s, r, t).state.faults.power_fault,
        s.faults.temp_fault ==> tlv_step(s, r, t).state.faults.temp_fault,
        s.faults.comms_fault ==> tlv_step(s, r, t).state.faults.comms_fault,
        s.faults.payload_fault ==> tlv_step(s, r, t).state.faults.payload_fault,
        s.faults.adcs_fault ==> tlv_step(s, r, t).state.faults.adcs_fault,
{
    reveal(tlv_step);
    if t.typ == 0x07 && single_value(t) {
        let (s1, r1, a1) = fault_test_outcome(s, r, t.val[0]);
        crate::faults::lemma_fault_evaluation_latches_and_enforces_safe_mode(s1, r1);
    }
}

/// Law: the computer leaves SAFE mode for NORMAL only through the system
/// command `01 01 00`, and only while no fault is active.
pub proof fn lemma_normal_mode_only_when_fault_free(s: OBCState, r: FaultReadings, t: TLVView)
    requires
        s.mode == OBCMode::Safe,
        tlv_step(s, r, t).state.mode == OBCMode::Normal,
    ensures
        t.typ == 0x01 && t.len == 1 && t.val =~= seq![0x00u8],
        !any_fault(s.faults),
{
    reveal(tlv_step);
    if t.typ == 0x01 && t.len == 1 && t.val.len() == 1 {
        assert(t.val =~= seq![t.val[0]]);
    }
}

/// Law: after a well-formed fault injection command, SAFE mode holds whenever a fault is
/// active; the tests 0x00 to 0x07 always leave a fault active, so they always
/// leave the computer in SAFE mode.
pub proof fn lemma_fault_injection_enforces_safe_mode(s: OBCState, r: FaultReadings, t: TLVView)
    requires
        t.typ == 0x07,
        single_value(t),
    ensures
        any_fault(tlv_step(s, r, t).state.faults) ==> tlv_step(s, r, t).state.mode == OBCMode::Safe,
        t.val[0] <= 0x07 ==> {
            &&& any_fault(tlv_step(s, r, t).state.faults)
            &&& tlv_step(s, r, t).state.mode == OBCMode::Safe
        },
{
    reveal(tlv_step);
}

/// Law: telemetry and storage commands change neither the state nor the
/// threshold checks.
pub proof fn lemma_reports_and_storage_change_nothing(s: OBCState, r: FaultReadings, t: TLVView)
    requires
        t.typ == 0x02 || t.typ == 0x08,
    ensures
        tlv_step(s, r, t).state == s,
        tlv_step(s, r, t).readings == r,
        tlv_step(s, r, t).running,
{
    reveal(tlv_step);
}

/// Law: handling a packet of one command is handling that command.
pub proof fn lemma_single_command_packet(s: OBCState, r: FaultReadings, t: TLVView)
    ensures
        packet_step(s, r, seq![t]) == tlv_step(s, r, t),
{
    reveal_with_fuel(packet_step, 2);
    let first = tlv_step(s, r, t);
    assert(seq![t].drop_first() =~= Seq::<TLVView>::empty());
    assert(first.actions + Seq::<Action>::empty() =~= first.actions);
}

/// The one-byte command `typ 01 v`.
pub open spec fn one_byte_command(typ: u8, v: u8) -> TLVView {
    TLVView { typ, len: 1, val: seq![v] }
}

/// The bare command `typ 00`.
pub open spec fn bare_command(typ: u8) -> TLVView {
    TLVView { typ, len: 0, val: Seq::empty() }
}

/// Law: the comms commands. `03 01 00` turns the radio off and `03 01 01`
/// turns it on, changing nothing else; transmit (`02`) and receive (`03`)
/// change nothing; reset (`04`) turns the radio on with both link counters at
/// zero and the signal back to nominal. None stops the runtime.
pub proof fn lemma_comms_commands(s: OBCState, r: FaultReadings)
    ensures
        !tlv_step(s, r, one_byte_command(0x03, 0x00)).state.comms.radio_on,
        tlv_step(s, r, one_byte_command(0x03, 0x00)).state == (OBCState {
            comms: CommsState { radio_on: false, ..s.comms },
            ..s
        }),
        tlv_step(s, r, one_byte_command(0x03, 0x00)).actions == seq![
            Action::Log(LogLevel::Warn, Notice::RadioDisabled),
        ],
        tlv_step(s, r, one_byte_command(0x03, 0x01)).state.comms.radio_on,
        tlv_step(s, r, one_byte_command(0x03, 0x01)).state == (OBCState {
            comms: CommsState { radio_on: true, ..s.comms },
            ..s
        }),
        tlv_step(s, r, one_byte_command(0x03, 0x01)).actions == seq![
            Action::Log(LogLevel::Info, Notice::RadioEnabled),
        ],
        tlv_step(s, r, one_byte_command(0x03, 0x02)).state == s,
        tlv_step(s, r, one_byte_command(0x03, 0x03)).state == s,
        tlv_step(s, r, one_byte_command(0x03, 0x04)).state == (OBCState {
            comms: CommsState { radio_on: true, last_uplink_ms: 0, last_downlink_ms: 0 },
            ..s
        }),
        tlv_step(s, r, one_byte_command(0x03, 0x04)).readings == (FaultReadings {
            rssi_weak: false,
            ..r
        }),
        forall|v: u8|
            v <= 0x03 ==> #[trigger] tlv_step(s, r, one_byte_command(0x03, v)).readings == r,
        forall|v: u8| v > 0x04 ==> #[trigger] tlv_step(s, r, one_byte_command(0x03, v)).state == s,
        forall|v: u8| #[trigger] tlv_step(s, r, one_byte_command(0x03, v)).running,
{
    reveal(tlv_step);
}

/// Law: the payload commands. `04 01 00` turns the payload off (idle), `01`
/// turns it on (idle), `02` starts a capture (on, busy), `03` stops a capture
/// (idle, power unchanged), `04` changes nothing; only the payload changes.
pub proof fn lemma_payload_commands(s: OBCState, r: FaultReadings)
    ensures
        tlv_step(s, r, one_byte_command(0x04, 0x00)).state == (OBCState {
            payload: PayloadState { payload_on: false, status: PayloadStatus::Idle },
            ..s
        }),
        tlv_step(s, r, one_byte_command(0x04, 0x01)).state == (OBCState {
            payload: PayloadState { payload_on: true, status: PayloadStatus::Idle },
            ..s
        }),
        tlv_step(s, r, one_byte_command(0x04, 0x02)).state == (OBCState {
            payload: PayloadState { payload_on: true, status: PayloadStatus::Busy },
            ..s
        }),
        tlv_step(s, r, one_byte_command(0x04, 0x03)).state == (OBCState {
            payload: PayloadState { payload_on: s.payload.payload_on, status: PayloadStatus::Idle },
            ..s
        }),
        tlv_step(s, r, one_byte_command(0x04, 0x04)).state == s,
        forall|v: u8| v > 0x04 ==> #[trigger] tlv_step(s, r, one_byte_command(0x04, v)).state == s,
        forall|v: u8| #[trigger] tlv_step(s, r, one_byte_command(0x04, v)).readings == r,
        forall|v: u8| #[trigger] tlv_step(s, r, one_byte_command(0x04, v)).running,
{
    reveal(tlv_step);
}

/// Law: the ADCS commands set the attitude mode: `05 01 00` and `05` SAFE,
/// `01`, `03` and `04` NOMINAL, `02` DETUMBLE; nothing else changes, and an
/// out-of-range value changes nothing.
pub proof fn lemma_adcs_commands(s: OBCState, r: FaultReadings)
    ensures
        tlv_step(s, r, one_byte_command(0x05, 0x00)).state == (OBCState { adcs: ADCSState { status: ADCSStatus::Safe }, ..s }),
        tlv_step(s, r, one_byte_command(0x05, 0x01)).state == (OBCState { adcs: ADCSState { status: ADCSStatus::Nominal }, ..s }),
        tlv_step(s, r, one_byte_command(0x05, 0x02)).state == (OBCState { adcs: ADCSState { status: ADCSStatus::Detumble }, ..s }),
        tlv_step(s, r, one_byte_command(0x05, 0x03)).state == (OBCState { adcs: ADCSState { status: ADCSStatus::Nominal }, ..s }),
        tlv_step(s, r, one_byte_command(0x05, 0x04)).state == (OBCState { adcs: ADCSState { status: ADCSStatus::Nominal }, ..s }),
        tlv_step(s, r, one_byte_command(0x05, 0x05)).state == (OBCState { adcs: ADCSState { status: ADCSStatus::Safe }, ..s }),
        forall|v: u8| v > 0x05 ==> #[trigger] tlv_step(s, r, one_byte_command(0x05, v)).state == s,
        forall|v: u8| #[trigger] tlv_step(s, r, one_byte_command(0x05, v)).readings == r,
        forall|v: u8| #[trigger] tlv_step(s, r, one_byte_command(0x05, v)).running,
{
    reveal(tlv_step);
}

/// Law: the fault management commands. `06 01 00` clears every fault flag
/// and nothing else; `01` puts every subsystem back in its boot state (power
/// normal and charging, radio on with zeroed counters, payload on and idle,
/// ADCS detumbling, no fault, nominal readings) but keeps the mode; `02`, `03`
/// and `04` reset comms, payload or ADCS and clear that subsystem's flag only.
pub proof fn lemma_fault_management_commands(s: OBCState, r: FaultReadings)
    ensures
        tlv_step(s, r, one_byte_command(0x06, 0x00)).state == (OBCState {
            faults: FaultsState {
                power_fault: false,
                temp_fault: false,
                comms_fault: false,
                payload_fault: false,
                adcs_fault: false,
            },
            ..s
        }),
        tlv_step(s, r, one_byte_command(0x06, 0x01)).state == (OBCState {
            mode: s.mode,
            power: PowerState { mode: PowerMode::Normal, charging: true },
            comms: CommsState { radio_on: true, last_uplink_ms: 0, last_downlink_ms: 0 },
            payload: PayloadState { payload_on: true, status: PayloadStatus::Idle },
            adcs: ADCSState { status: ADCSStatus::Detumble },
            faults: FaultsState {
                power_fault: false,
                temp_fault: false,
                comms_fault: false,
                payload_fault: false,
                adcs_fault: false,
            },
        }),
        tlv_step(s, r, one_byte_command(0x06, 0x01)).readings == (FaultReadings {
            battery_low: false,
            overheated: false,
            rssi_weak: false,
            gyro_excessive: false,
        }),
        tlv_step(s, r, one_byte_command(0x06, 0x02)).state == (OBCState {
            comms: CommsState { radio_on: true, last_uplink_ms: 0, last_downlink_ms: 0 },
            faults: FaultsState { comms_fault: false, ..s.faults },
            ..s
        }),
        tlv_step(s, r, one_byte_command(0x06, 0x02)).readings == (FaultReadings { rssi_weak: false, ..r }),
        tlv_step(s, r, one_byte_command(0x06, 0x03)).state == (OBCState {
            payload: PayloadState { payload_on: true, status: PayloadStatus::Idle },
            faults: FaultsState { payload_fault: false, ..s.faults },
            ..s
        }),
        tlv_step(s, r, one_byte_command(0x06, 0x03)).readings == r,
        tlv_step(s, r, one_byte_command(0x06, 0x04)).state == (OBCState {
            adcs: ADCSState { status: ADCSStatus::Detumble },
            faults: FaultsState { adcs_fault: false, ..s.faults },
            ..s
        }),
        tlv_step(s, r, one_byte_command(0x06, 0x04)).readings == (FaultReadings { gyro_excessive: false, ..r }),
        forall|v: u8| v > 0x04 ==> #[trigger] tlv_step(s, r, one_byte_command(0x06, v)).state == s,
        forall|v: u8| #[trigger] tlv_step(s, r, one_byte_command(0x06, v)).running,
{
    reveal(tlv_step);
}

/// Law: the system commands. `01 00` stops the runtime and changes nothing;
/// `01 01 01` enters SAFE mode; `01 01 00` enters NORMAL mode unless the
/// computer is in SAFE mode with a fault flag set, in which case the mode
/// stays SAFE; only the mode changes, and other values change nothing.
pub proof fn lemma_system_commands(s: OBCState, r: FaultReadings)
    ensures
        !tlv_step(s, r, bare_command(0x01)).running,
        tlv_step(s, r, bare_command(0x01)).state == s,
        tlv_step(s, r, bare_command(0x01)).actions == seq![
            Action::Log(LogLevel::Warn, Notice::ShutdownRequested),
        ],
        tlv_step(s, r, one_byte_command(0x01, 0x01)).state == (OBCState { mode: OBCMode::Safe, ..s }),
        tlv_step(s, r, one_byte_command(0x01, 0x00)).state == (OBCState {
            mode: if s.mode == OBCMode::Safe && (s.faults.power_fault || s.faults.temp_fault
                || s.faults.comms_fault || s.faults.payload_fault || s.faults.adcs_fault) {
                OBCMode::Safe
            } else {
                OBCMode::Normal
            },
            ..s
        }),
        forall|v: u8| v > 0x01 ==> #[trigger] tlv_step(s, r, one_byte_command(0x01, v)).state == s,
        forall|v: u8| #[trigger] tlv_step(s, r, one_byte_command(0x01, v)).running,
        forall|v: u8| #[trigger] tlv_step(s, r, one_byte_command(0x01, v)).readings == r,
{
    reveal(tlv_step);
}

/// Law: the telemetry commands report the state they are given: `02 01 00` a
/// full report, `01` power, `02` temperatures, `03` comms, `04` payload, `05`
/// ADCS, and `06` dumps the error log.
pub proof fn lemma_telemetry_commands(s: OBCState, r: FaultReadings)
    ensures
        tlv_step(s, r, one_byte_command(0x02, 0x00)).actions == seq![Action::Report(TelemetryKind::Full, s)],
        tlv_step(s, r, one_byte_command(0x02, 0x01)).actions == seq![Action::Report(TelemetryKind::Power, s)],
        tlv_step(s, r, one_byte_command(0x02, 0x02)).actions == seq![Action::Report(TelemetryKind::Temps, s)],
        tlv_step(s, r, one_byte_command(0x02, 0x03)).actions == seq![Action::Report(TelemetryKind::Comms, s)],
        tlv_step(s, r, one_byte_command(0x02, 0x04)).actions == seq![Action::Report(TelemetryKind::Payload, s)],
        tlv_step(s, r, one_byte_command(0x02, 0x05)).actions == seq![Action::Report(TelemetryKind::Adcs, s)],
        tlv_step(s, r, one_byte_command(0x02, 0x06)).actions == seq![Action::DumpErrorLogs],
{
    reveal(tlv_step);
}

/// Law: the storage commands: `08 00` dumps the storage file; `08 01 00`
/// clears it, `01` writes test data, `02` corrupts it, `03` restores the
/// defaults.
pub proof fn lemma_storage_commands(s: OBCState, r: FaultReadings)
    ensures
        tlv_step(s, r, bare_command(0x08)).actions == seq![Action::Storage(StorageCommand::Dump)],
        tlv_step(s, r, one_byte_command(0x08, 0x00)).actions == seq![Action::Storage(StorageCommand::Clear)],
        tlv_step(s, r, one_byte_command(0x08, 0x01)).actions == seq![Action::Storage(StorageCommand::WriteTestData)],
        tlv_step(s, r, one_byte_command(0x08, 0x02)).actions == seq![Action::Storage(StorageCommand::Corrupt)],
        tlv_step(s, r, one_byte_command(0x08, 0x03)).actions == seq![Action::Storage(StorageCommand::RestoreDefaults)],
{
    reveal(tlv_step);
}

/// Law: each fault test sets the fault it simulates, and leaves the computer
/// in SAFE mode: `07 01 00` comms (bit flip), `01` power (battery reading
/// corrupted low), `02` payload (payload in error), `03` ADCS (gyro spike),
/// `04` temperature (board overheated), `05` comms (radio off), `06` payload
/// and comms, `07` comms.
pub proof fn lemma_fault_tests(s: OBCState, r: FaultReadings)
    ensures
        tlv_step(s, r, one_byte_command(0x07, 0x00)).state.faults.comms_fault,
        tlv_step(s, r, one_byte_command(0x07, 0x01)).state.faults.power_fault,
        tlv_step(s, r, one_byte_command(0x07, 0x01)).readings.battery_low,
        tlv_step(s, r, one_byte_command(0x07, 0x02)).state.faults.payload_fault,
        tlv_step(s, r, one_byte_command(0x07, 0x02)).state.payload.status == PayloadStatus::Error,
        tlv_step(s, r, one_byte_command(0x07, 0x03)).state.faults.adcs_fault,
        tlv_step(s, r, one_byte_command(0x07, 0x03)).readings.gyro_excessive,
        tlv_step(s, r, one_byte_command(0x07, 0x04)).state.faults.temp_fault,
        tlv_step(s, r, one_byte_command(0x07, 0x04)).readings.overheated,
        tlv_step(s, r, one_byte_command(0x07, 0x05)).state.faults.comms_fault,
        !tlv_step(s, r, one_byte_command(0x07, 0x05)).state.comms.radio_on,
        tlv_step(s, r, one_byte_command(0x07, 0x06)).state.faults.payload_fault,
        tlv_step(s, r, one_byte_command(0x07, 0x06)).state.faults.comms_fault,
        tlv_step(s, r, one_byte_command(0x07, 0x07)).state.faults.comms_fault,
        forall|v: u8|
            v <= 0x07 ==> #[trigger] tlv_step(s, r, one_byte_command(0x07, v)).state.mode == OBCMode::Safe,
        forall|v: u8| #[trigger] tlv_step(s, r, one_byte_command(0x07, v)).running,
{
    reveal(tlv_step);
}

} // verus!
