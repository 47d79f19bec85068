use vstd::prelude::*;

use crate::actions::{Action, AnalogEffect, LogLevel, Notice};
use crate::modes::force_safe_mode;
use crate::state::{any_fault, no_faults, FaultsState, OBCMode, OBCState, PayloadStatus, PowerMode};

verus! {

/// The threshold checks of the analog readings that fault detection reads:
/// battery below 3.3 V; board or radio or payload above 90 degrees C or battery
/// above 65 degrees C; signal below -115 dBm; a gyro rate beyond 5 in magnitude.
#[derive(Clone, Copy, Debug, PartialEq, Eq, Structural)]
pub struct FaultReadings {
    pub battery_low: bool,
    pub overheated: bool,
    pub rssi_weak: bool,
    pub gyro_excessive: bool,
}

/// The threshold checks after an analog effect: each effect writes fixed values
/// whose side of each threshold is known (-70 dBm is not weak; zero rates are
/// not excessive; the boot readings trip nothing; -1.0 V is low; a 6.0 gyro
/// rate is excessive; 95 degrees C is overheated).
pub open spec fn readings_after(r: FaultReadings, e: AnalogEffect) -> FaultReadings {
    match e {
        AnalogEffect::RadioLinkReset => FaultReadings { rssi_weak: false, ..r },
        AnalogEffect::AttitudeReset => FaultReadings { gyro_excessive: false, ..r },
        AnalogEffect::AllReset => FaultReadings {
            battery_low: false,
            overheated: false,
            rssi_weak: false,
            gyro_excessive: false,
        },
        AnalogEffect::BatteryCorrupted => FaultReadings { battery_low: true, ..r },
        AnalogEffect::GyroSpike => FaultReadings { gyro_excessive: true, ..r },
        AnalogEffect::BoardOverheat => FaultReadings { overheated: true, ..r },
    }
}

/// Updates the threshold checks for an analog effect.
pub fn apply_analog_effect(readings: &mut FaultReadings, e: AnalogEffect)
    ensures
        *final(readings) == readings_after(*old(readings), e),
{
    match e {
        AnalogEffect::RadioLinkReset => readings.rssi_weak = false,
        AnalogEffect::AttitudeReset => readings.gyro_excessive = false,
        AnalogEffect::AllReset => {
            readings.battery_low = false;
            readings.overheated = false;
            readings.rssi_weak = false;
            readings.gyro_excessive = false;
        },
        AnalogEffect::BatteryCorrupted => readings.battery_low = true,
        AnalogEffect::GyroSpike => readings.gyro_excessive = true,
        AnalogEffect::BoardOverheat => readings.overheated = true,
    }
}

/// Whether any subsystem has a fault flag set.
pub fn has_active_faults(state: &OBCState) -> (r: bool)
    ensures
        r == any_fault(state.faults),
{
    state.faults.power_fault || state.faults.temp_fault || state.faults.comms_fault
        || state.faults.payload_fault || state.faults.adcs_fault
}

/// Clears every fault flag and changes nothing else.
pub fn clear_faults(state: &mut OBCState)
    ensures
        *final(state) == (OBCState { faults: no_faults(), ..*old(state) }),
        !any_fault(final(state).faults),
{
    state.faults.power_fault = false;
    state.faults.temp_fault = false;
    state.faults.comms_fault = false;
    state.faults.payload_fault = false;
    state.faults.adcs_fault = false;
}

/// The fault flags after a detection pass: each flag stays set once set, and
/// is set when its subsystem's condition holds now.
pub open spec fn latched_faults(s: OBCState, r: FaultReadings) -> FaultsState {
    FaultsState {
        power_fault: s.faults.power_fault || r.battery_low || s.power.mode == PowerMode::Critical,
        temp_fault: s.faults.temp_fault || r.overheated,
        comms_fault: s.faults.comms_fault || !s.comms.radio_on || r.rssi_weak,
        payload_fault: s.faults.payload_fault || s.payload.status == PayloadStatus::Error,
        adcs_fault: s.faults.adcs_fault || r.gyro_excessive,
    }
}

/// The state after a detection pass: faults latched, and SAFE mode forced
/// when any fault is then active.
pub open spec fn after_fault_evaluation(s: OBCState, r: FaultReadings) -> OBCState {
    let f = latched_faults(s, r);
    if any_fault(f) {
        OBCState { mode: OBCMode::Safe, faults: f, ..s }
    } else {
        OBCState { faults: f, ..s }
    }
}

/// Runs fault detection: latches the faults that the state and the readings
/// show, forces SAFE mode if any fault is active, and reports whether one is.
pub fn evaluate_faults(state: &mut OBCState, readings: &FaultReadings) -> (r: bool)
    ensures
        *final(state) == after_fault_evaluation(*old(state), *readings),
        r == any_fault(final(state).faults),
{
    let power_fault_now = readings.battery_low || state.power.mode == PowerMode::Critical;
    let temp_fault_now = readings.overheated;
    let comms_fault_now = !state.comms.radio_on || readings.rssi_weak;
    let payload_fault_now = state.payload.status == PayloadStatus::Error;
    let adcs_fault_now = readings.gyro_excessive;

    state.faults.power_fault = state.faults.power_fault || power_fault_now;
    state.faults.temp_fault = state.faults.temp_fault || temp_fault_now;
    state.faults.comms_fault = state.faults.comms_fault || comms_fault_now;
    state.faults.payload_fault = state.faults.payload_fault || payload_fault_now;
    state.faults.adcs_fault = state.faults.adcs_fault || adcs_fault_now;

    if has_active_faults(state) {
        force_safe_mode(state);
        return true;
    }
    false
}

/// Law: fault detection never clears a fault flag, and whenever it leaves a
/// fault active the computer is in SAFE mode; when it finds no fault it
/// changes nothing.
pub proof fn lemma_fault_evaluation_latches_and_enforces_safe_mode(s: OBCState, r: FaultReadings)
    ensures
        s.faults.power_fault ==> after_fault_evaluation(s, r).faults.power_fault,
        s.faults.temp_fault ==> after_fault_evaluation(s, r).faults.temp_fault,
        s.faults.comms_fault ==> after_fault_evaluation(s, r).faults.comms_fault,
        s.faults.payload_fault ==> after_fault_evaluation(s, r).faults.payload_fault,
        s.faults.adcs_fault ==> after_fault_evaluation(s, r).faults.adcs_fault,
        any_fault(after_fault_evaluation(s, r).faults) ==> after_fault_evaluation(s, r).mode
            == OBCMode::Safe,
        !any_fault(after_fault_evaluation(s, r).faults) ==> after_fault_evaluation(s, r) == s,
{
}

/// Law: running detection twice with the same readings gives what running it
/// once gives.
pub proof fn lemma_fault_evaluation_idempotent(s: OBCState, r: FaultReadings)
    ensures
        after_fault_evaluation(after_fault_evaluation(s, r), r) == after_fault_evaluation(s, r),
{
}

/// What a fault test does to the discrete state, the threshold checks and the
/// action list, for test id `id` (0x00 to 0x07; any other id only logs).
pub open spec fn fault_test_outcome(s: OBCState, r: FaultReadings, id: u8) -> (
    OBCState,
    FaultReadings,
    Seq<Action>,
) {
    let f = s.faults;
    match id {
        0x00 => (
            OBCState { faults: FaultsState { comms_fault: true, ..f }, ..s },
            r,
            seq![Action::Record(LogLevel::Warn, Notice::BitFlipSimulated)],
        ),
        0x01 => (
            OBCState { faults: FaultsState { power_fault: true, ..f }, ..s },
            readings_after(r, AnalogEffect::BatteryCorrupted),
            seq![
                Action::Analog(AnalogEffect::BatteryCorrupted),
                Action::Record(LogLevel::Warn, Notice::MemoryCorruptionSimulated),
            ],
        ),
        0x02 => (
            OBCState {
                payload: crate::state::PayloadState { status: PayloadStatus::Error, ..s.payload },
                faults: FaultsState { payload_fault: true, ..f },
                ..s
            },
            r,
            seq![Action::Record(LogLevel::Warn, Notice::BufferOverflowTested)],
        ),
        0x03 => (
            OBCState { faults: FaultsState { adcs_fault: true, ..f }, ..s },
            readings_after(r, AnalogEffect::GyroSpike),
            seq![
                Action::Analog(AnalogEffect::GyroSpike),
                Action::Record(LogLevel::Warn, Notice::RaceConditionSimulated),
            ],
        ),
        0x04 => (
            OBCState { faults: FaultsState { temp_fault: true, ..f }, ..s },
            readings_after(r, AnalogEffect::BoardOverheat),
            seq![
                Action::Analog(AnalogEffect::BoardOverheat),
                Action::Record(LogLevel::Warn, Notice::StackCorruptionGuarded),
            ],
        ),
        0x05 => (
            OBCState {
                comms: crate::state::CommsState { radio_on: false, ..s.comms },
                faults: FaultsState { comms_fault: true, ..f },
                ..s
            },
            r,
            seq![Action::Record(LogLevel::Warn, Notice::NullPointerPrevented)],
        ),
        0x06 => (
            OBCState { faults: FaultsState { payload_fault: true, comms_fault: true, ..f }, ..s },
            r,
            seq![Action::Record(LogLevel::Warn, Notice::SubsystemFailureInjected)],
        ),
        0x07 => (
            OBCState { faults: FaultsState { comms_fault: true, ..f }, ..s },
            r,
            seq![Action::Record(LogLevel::Warn, Notice::PacketCorruptionInjected)],
        ),
        _ => (s, r, seq![Action::Record(LogLevel::Warn, Notice::UnknownFaultTest)]),
    }
}

/// Runs fault test `id`: sets the fault it simulates, records the analog
/// change it makes, and logs what was done.
pub fn run_fault_test(
    state: &mut OBCState,
    readings: &mut FaultReadings,
    id: u8,
    actions: &mut Vec<Action>,
)
    ensures
        *final(state) == fault_test_outcome(*old(state), *old(readings), id).0,
        *final(readings) == fault_test_outcome(*old(state), *old(readings), id).1,
        final(actions)@ == old(actions)@ + fault_test_outcome(*old(state), *old(readings), id).2,
{
    let ghost a0 = actions@;
    match id {
        0x00 => {
            state.faults.comms_fault = true;
            actions.push(Action::Record(LogLevel::Warn, Notice::BitFlipSimulated));
        },
        0x01 => {
            actions.push(Action::Analog(AnalogEffect::BatteryCorrupted));
            apply_analog_effect(readings, AnalogEffect::BatteryCorrupted);
            state.faults.power_fault = true;
            actions.push(Action::Record(LogLevel::Warn, Notice::MemoryCorruptionSimulated));
        },
        0x02 => {
            state.payload.status = PayloadStatus::Error;
            state.faults.payload_fault = true;
            actions.push(Action::Record(LogLevel::Warn, Notice::BufferOverflowTested));
        },
        0x03 => {
            actions.push(Action::Analog(AnalogEffect::GyroSpike));
            apply_analog_effect(readings, AnalogEffect::GyroSpike);
            state.faults.adcs_fault = true;
            actions.push(Action::Record(LogLevel::Warn, Notice::RaceConditionSimulated));
        },
        0x04 => {
            actions.push(Action::Analog(AnalogEffect::BoardOverheat));
            apply_analog_effect(readings, AnalogEffect::BoardOverheat);
            state.faults.temp_fault = true;
            actions.push(Action::Record(LogLevel::Warn, Notice::StackCorruptionGuarded));
        },
        0x05 => {
            state.comms.radio_on = false;
            state.faults.comms_fault = true;
            actions.push(Action::Record(LogLevel::Warn, Notice::NullPointerPrevented));
        },
        0x06 => {
            actions.push(Action::Record(LogLevel::Warn, Notice::SubsystemFailureInjected));
            state.faults.payload_fault = true;
            state.faults.comms_fault = true;
        },
        0x07 => {
            actions.push(Action::Record(LogLevel::Warn, Notice::PacketCorruptionInjected));
            state.faults.comms_fault = true;
        },
        _ => {
            actions.push(Action::Record(LogLevel::Warn, Notice::UnknownFaultTest));
        },
    }
    assert(actions@ =~= a0 + fault_test_outcome(*old(state), *old(readings), id).2);
}

/// Law: what fault detection sets. Each threshold reading raises its
/// subsystem's flag (a low battery or a critical power mode the power flag, an
/// overheat the temperature flag, a weak signal or a radio that is off the
/// comms flag, a payload in error the payload flag, an excessive gyro rate the
/// ADCS flag), and then the computer is in SAFE mode; a flag is set afterwards
/// only if it was set before or its condition holds; and detection changes
/// nothing but the flags and the mode, the mode only to SAFE.
pub proof fn lemma_detection_raises_faults(s: OBCState, r: FaultReadings)
    ensures
        r.battery_low ==> after_fault_evaluation(s, r).faults.power_fault,
        s.power.mode == PowerMode::Critical ==> after_fault_evaluation(s, r).faults.power_fault,
        r.overheated ==> after_fault_evaluation(s, r).faults.temp_fault,
        r.rssi_weak ==> after_fault_evaluation(s, r).faults.comms_fault,
        !s.comms.radio_on ==> after_fault_evaluation(s, r).faults.comms_fault,
        s.payload.status == PayloadStatus::Error ==> after_fault_evaluation(s, r).faults.payload_fault,
        r.gyro_excessive ==> after_fault_evaluation(s, r).faults.adcs_fault,
        (r.battery_low || r.overheated || r.rssi_weak || r.gyro_excessive) ==> after_fault_evaluation(
            s,
            r,
        ).mode == OBCMode::Safe,
        after_fault_evaluation(s, r).faults.power_fault ==> (s.faults.power_fault || r.battery_low
            || s.power.mode == PowerMode::Critical),
        after_fault_evaluation(s, r).faults.temp_fault ==> (s.faults.temp_fault || r.overheated),
        after_fault_evaluation(s, r).faults.comms_fault ==> (s.faults.comms_fault || r.rssi_weak
            || !s.comms.radio_on),
        after_fault_evaluation(s, r).faults.payload_fault ==> (s.faults.payload_fault
            || s.payload.status == PayloadStatus::Error),
        after_fault_evaluation(s, r).faults.adcs_fault ==> (s.faults.adcs_fault || r.gyro_excessive),
        after_fault_evaluation(s, r).mode == s.mode || after_fault_evaluation(s, r).mode == OBCMode::Safe,
        after_fault_evaluation(s, r).mode == OBCMode::Safe <==> (s.mode == OBCMode::Safe || any_fault(
            after_fault_evaluation(s, r).faults,
        )),
        after_fault_evaluation(s, r).power == s.power,
        after_fault_evaluation(s, r).comms == s.comms,
        after_fault_evaluation(s, r).payload == s.payload,
        after_fault_evaluation(s, r).adcs == s.adcs,
{
}

/// Law: what each fault test sets before detection runs. Test 0x00 sets the
/// comms flag; 0x01 the power flag, with the battery reading driven low; 0x02
/// the payload flag, with the payload in error; 0x03 the ADCS flag, with a gyro
/// spike; 0x04 the temperature flag, with the board overheated; 0x05 the comms
/// flag, with the radio off; 0x06 the payload and comms flags; 0x07 the comms
/// flag. No test clears a flag or changes the mode, and an unknown test id
/// changes nothing.
pub proof fn lemma_fault_test_effects(s: OBCState, r: FaultReadings, id: u8)
    ensures
        fault_test_outcome(s, r, 0x00).0.faults.comms_fault,
        fault_test_outcome(s, r, 0x01).0.faults.power_fault,
        fault_test_outcome(s, r, 0x01).1.battery_low,
        fault_test_outcome(s, r, 0x02).0.faults.payload_fault,
        fault_test_outcome(s, r, 0x02).0.payload.status == PayloadStatus::Error,
        fault_test_outcome(s, r, 0x03).0.faults.adcs_fault,
        fault_test_outcome(s, r, 0x03).1.gyro_excessive,
        fault_test_outcome(s, r, 0x04).0.faults.temp_fault,
        fault_test_outcome(s, r, 0x04).1.overheated,
        fault_test_outcome(s, r, 0x05).0.faults.comms_fault,
        !fault_test_outcome(s, r, 0x05).0.comms.radio_on,
        fault_test_outcome(s, r, 0x06).0.faults.payload_fault,
        fault_test_outcome(s, r, 0x06).0.faults.comms_fault,
        fault_test_outcome(s, r, 0x07).0.faults.comms_fault,
        fault_test_outcome(s, r, id).0.mode == s.mode,
        s.faults.power_fault ==> fault_test_outcome(s, r, id).0.faults.power_fault,
        s.faults.temp_fault ==> fault_test_outcome(s, r, id).0.faults.temp_fault,
        s.faults.comms_fault ==> fault_test_outcome(s, r, id).0.faults.comms_fault,
        s.faults.payload_fault ==> fault_test_outcome(s, r, id).0.faults.payload_fault,
        s.faults.adcs_fault ==> fault_test_outcome(s, r, id).0.faults.adcs_fault,
        id > 0x07 ==> fault_test_outcome(s, r, id).0 == s && fault_test_outcome(s, r, id).1 == r,
{
}

/// Law: what each analog effect does to the threshold checks: a radio link
/// reset clears the weak signal, an attitude reset the excessive gyro rate, a
/// full reset every check; a corrupted battery reads low, a gyro spike is
/// excessive, a board overheat is overheated; every other check is untouched.
pub proof fn lemma_analog_effects(r: FaultReadings)
    ensures
        readings_after(r, AnalogEffect::RadioLinkReset) == (FaultReadings { rssi_weak: false, ..r }),
        readings_after(r, AnalogEffect::AttitudeReset) == (FaultReadings { gyro_excessive: false, ..r }),
        readings_after(r, AnalogEffect::AllReset) == (FaultReadings {
            battery_low: false,
            overheated: false,
            rssi_weak: false,
            gyro_excessive: false,
        }),
        readings_after(r, AnalogEffect::BatteryCorrupted) == (FaultReadings { battery_low: true, ..r }),
        readings_after(r, AnalogEffect::GyroSpike) == (FaultReadings { gyro_excessive: true, ..r }),
        readings_after(r, AnalogEffect::BoardOverheat) == (FaultReadings { overheated: true, ..r }),
{
}

} // verus!
