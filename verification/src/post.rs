use vstd::prelude::*;

use crate::state::{initial_state, ADCSStatus, OBCMode, OBCState, PayloadStatus, PowerMode};

verus! {

/// The threshold checks of the analog readings that the power-on self test
/// reads: battery above 3.0 V and drawing under 2.0 A; board, radio and
/// payload under 85 degrees C and battery under 60 degrees C; signal above
/// -110 dBm; every gyro rate and magnetometer reading under 0.1 in magnitude.
#[derive(Clone, Copy, Debug, PartialEq, Eq, Structural)]
pub struct PostReadings {
    pub battery_voltage_ok: bool,
    pub battery_current_ok: bool,
    pub temps_ok: bool,
    pub rssi_ok: bool,
    pub attitude_still: bool,
}

/// The power-on self test passes when every subsystem is healthy and no fault
/// is set.
pub open spec fn post_passes(s: OBCState, r: PostReadings) -> bool {
    let power_ok = r.battery_voltage_ok && r.battery_current_ok && s.power.mode != PowerMode::Critical;
    let temps_ok = r.temps_ok;
    let comms_ok = s.comms.radio_on && r.rssi_ok && s.comms.last_uplink_ms < 30_000
        && s.comms.last_downlink_ms < 30_000;
    let payload_ok = s.payload.payload_on && s.payload.status != PayloadStatus::Error;
    let adcs_ok = r.attitude_still && s.adcs.status != ADCSStatus::Safe;
    let no_fault = !s.faults.power_fault && !s.faults.temp_fault && !s.faults.comms_fault
        && !s.faults.payload_fault && !s.faults.adcs_fault;
    power_ok && temps_ok && comms_ok && payload_ok && adcs_ok && no_fault
}

/// Runs the power-on self test.
pub fn run_post(state: &OBCState, readings: &PostReadings) -> (r: bool)
    ensures
        r == post_passes(*state, *readings),
        // A computer with an active fault never passes.
        r ==> !crate::state::any_fault(state.faults),
{
    let power_ok = readings.battery_voltage_ok && readings.battery_current_ok
        && state.power.mode != PowerMode::Critical;
    let temps_ok = readings.temps_ok;
    let comms_ok = state.comms.radio_on && readings.rssi_ok && state.comms.last_uplink_ms < 30_000
        && state.comms.last_downlink_ms < 30_000;
    let payload_ok = state.payload.payload_on && state.payload.status != PayloadStatus::Error;
    let adcs_ok = readings.attitude_still && state.adcs.status != ADCSStatus::Safe;
    let faults_present = !state.faults.power_fault && !state.faults.temp_fault
        && !state.faults.comms_fault && !state.faults.payload_fault && !state.faults.adcs_fault;
    power_ok && temps_ok && comms_ok && payload_ok && adcs_ok && faults_present
}

/// The state the computer boots into: the boot state, in SAFE mode when the
/// power-on self test fails. Also returns whether the test passed.
pub fn boot(readings: &PostReadings) -> (r: (OBCState, bool))
    ensures
        r.1 == post_passes(initial_state(), *readings),
        r.0 == (if r.1 { initial_state() } else { OBCState { mode: OBCMode::Safe, ..initial_state() } }),
{
    let mut state = OBCState::new();
    let passed = run_post(&state, readings);
    if !passed {
        state.mode = OBCMode::Safe;
    }
    (state, passed)
}

/// Law: the self test fails as soon as any one check fails: a reading out of
/// range (battery voltage, battery current, temperatures, signal, attitude),
/// a critical power mode, the radio off or a link counter at 30 s or more,
/// the payload off or in error, the ADCS in SAFE mode, or any fault flag set;
/// and it passes when every check holds. From the boot state it passes
/// exactly when every reading is in range, and booting otherwise enters SAFE
/// mode.
pub proof fn lemma_post_fails_on_any_check(s: OBCState, r: PostReadings)
    ensures
        !r.battery_voltage_ok ==> !post_passes(s, r),
        !r.battery_current_ok ==> !post_passes(s, r),
        !r.temps_ok ==> !post_passes(s, r),
        !r.rssi_ok ==> !post_passes(s, r),
        !r.attitude_still ==> !post_passes(s, r),
        s.power.mode == PowerMode::Critical ==> !post_passes(s, r),
        !s.comms.radio_on ==> !post_passes(s, r),
        s.comms.last_uplink_ms >= 30_000 ==> !post_passes(s, r),
        s.comms.last_downlink_ms >= 30_000 ==> !post_passes(s, r),
        !s.payload.payload_on ==> !post_passes(s, r),
        s.payload.status == PayloadStatus::Error ==> !post_passes(s, r),
        s.adcs.status == ADCSStatus::Safe ==> !post_passes(s, r),
        s.faults.power_fault || s.faults.temp_fault || s.faults.comms_fault || s.faults.payload_fault
            || s.faults.adcs_fault ==> !post_passes(s, r),
        r.battery_voltage_ok && r.battery_current_ok && r.temps_ok && r.rssi_ok && r.attitude_still
            && s.power.mode != PowerMode::Critical && s.comms.radio_on && s.comms.last_uplink_ms
            < 30_000 && s.comms.last_downlink_ms < 30_000 && s.payload.payload_on
            && s.payload.status != PayloadStatus::Error && s.adcs.status != ADCSStatus::Safe
            && !(s.faults.power_fault || s.faults.temp_fault || s.faults.comms_fault
            || s.faults.payload_fault || s.faults.adcs_fault) ==> post_passes(s, r),
        post_passes(initial_state(), r) <==> (r.battery_voltage_ok && r.battery_current_ok
            && r.temps_ok && r.rssi_ok && r.attitude_still),
{
}

} // verus!
