use vstd::prelude::*;

use crate::state::{CommsState, OBCState, PayloadState, PayloadStatus, PowerMode, PowerState};

verus! {

/// The threshold checks of the power readings that the power update reads:
/// solar input above 0.5 (the battery is charging) and battery voltage below
/// 3.5 V (low-power mode).
#[derive(Clone, Copy, Debug, PartialEq, Eq, Structural)]
pub struct PowerReadings {
    pub solar_charging: bool,
    pub battery_below_nominal: bool,
}

/// The power subsystem after an update: charging follows the solar input, and
/// the mode is LOW POWER below 3.5 V and NORMAL otherwise.
pub open spec fn power_after_update(r: PowerReadings) -> PowerState {
    PowerState {
        mode: if r.battery_below_nominal { PowerMode::LowPower } else { PowerMode::Normal },
        charging: r.solar_charging,
    }
}

/// Whether the link counters can advance by `dt_ms` without overflow.
pub open spec fn comms_can_advance(s: OBCState, dt_ms: u64) -> bool {
    s.comms.last_uplink_ms + dt_ms <= u64::MAX && s.comms.last_downlink_ms + dt_ms <= u64::MAX
}

/// The discrete state after a tick of `dt_ms` milliseconds.
pub open spec fn after_tick(s: OBCState, dt_ms: u64, r: PowerReadings) -> OBCState {
    OBCState {
        power: power_after_update(r),
        comms: CommsState {
            last_uplink_ms: (s.comms.last_uplink_ms + dt_ms) as u64,
            last_downlink_ms: (s.comms.last_downlink_ms + dt_ms) as u64,
            ..s.comms
        },
        payload: PayloadState {
            status: if s.payload.payload_on { PayloadStatus::Busy } else { PayloadStatus::Idle },
            ..s.payload
        },
        ..s
    }
}

/// Advances the discrete state of every subsystem by one tick.
pub fn update_subsystems(state: &mut OBCState, dt_ms: u64, power: &PowerReadings)
    requires
        comms_can_advance(*old(state), dt_ms),
    ensures
        *final(state) == after_tick(*old(state), dt_ms, *power),
{
    update_power(state, power);
    update_comms(state, dt_ms);
    update_payload(state);
}

/// Sets the power mode and the charging flag from the power readings.
pub fn update_power(state: &mut OBCState, readings: &PowerReadings)
    ensures
        *final(state) == (OBCState { power: power_after_update(*readings), ..*old(state) }),
{
    state.power.charging = readings.solar_charging;
    if readings.battery_below_nominal {
        state.power.mode = PowerMode::LowPower;
    } else {
        state.power.mode = PowerMode::Normal;
    }
}

/// Ages the uplink and downlink counters by `dt_ms`.
pub fn update_comms(state: &mut OBCState, dt_ms: u64)
    requires
        comms_can_advance(*old(state), dt_ms),
    ensures
        *final(state) == (OBCState {
            comms: CommsState {
                last_uplink_ms: (old(state).comms.last_uplink_ms + dt_ms) as u64,
                last_downlink_ms: (old(state).comms.last_downlink_ms + dt_ms) as u64,
                ..old(state).comms
            },
            ..*old(state)
        }),
{
    state.comms.last_uplink_ms += dt_ms;
    state.comms.last_downlink_ms += dt_ms;
}

/// A payload that is on is busy; one that is off is idle.
pub fn update_payload(state: &mut OBCState)
    ensures
        *final(state) == (OBCState {
            payload: PayloadState {
                status: if old(state).payload.payload_on { PayloadStatus::Busy } else { PayloadStatus::Idle },
                ..old(state).payload
            },
            ..*old(state)
        }),
{
    if state.payload.payload_on == true {
        state.payload.status = PayloadStatus::Busy;
    } else {
        state.payload.status = PayloadStatus::Idle;
    }
}

/// Law: a tick never changes the mode or clears a fault, and the link
/// counters never go down.
pub proof fn lemma_tick_keeps_mode_and_faults(s: OBCState, dt_ms: u64, r: PowerReadings)
    requires
        comms_can_advance(s, dt_ms),
    ensures
        after_tick(s, dt_ms, r).mode == s.mode,
        after_tick(s, dt_ms, r).faults == s.faults,
        after_tick(s, dt_ms, r).comms.last_uplink_ms >= s.comms.last_uplink_ms,
        after_tick(s, dt_ms, r).comms.last_downlink_ms >= s.comms.last_downlink_ms,
{
}

/// Law: what a tick does. The charging flag follows the solar reading (on
/// exactly when the solar input is above 0.5); the power mode is LOW POWER
/// exactly when the battery is below 3.5 V and NORMAL otherwise; both link
/// counters grow by exactly the tick; the radio is untouched; a payload that is
/// on becomes busy and one that is off idle, its power untouched.
pub proof fn lemma_tick_effects(s: OBCState, dt_ms: u64, r: PowerReadings)
    requires
        comms_can_advance(s, dt_ms),
    ensures
        after_tick(s, dt_ms, r).power.charging == r.solar_charging,
        power_after_update(r).charging == r.solar_charging,
        after_tick(s, dt_ms, r).power.mode == (if r.battery_below_nominal {
            PowerMode::LowPower
        } else {
            PowerMode::Normal
        }),
        power_after_update(r).mode == after_tick(s, dt_ms, r).power.mode,
        after_tick(s, dt_ms, r).comms.last_uplink_ms == s.comms.last_uplink_ms + dt_ms,
        after_tick(s, dt_ms, r).comms.last_downlink_ms == s.comms.last_downlink_ms + dt_ms,
        after_tick(s, dt_ms, r).comms.radio_on == s.comms.radio_on,
        after_tick(s, dt_ms, r).payload.payload_on == s.payload.payload_on,
        s.payload.payload_on ==> after_tick(s, dt_ms, r).payload.status == PayloadStatus::Busy,
        !s.payload.payload_on ==> after_tick(s, dt_ms, r).payload.status == PayloadStatus::Idle,
        after_tick(s, dt_ms, r).adcs == s.adcs,
{
}

} // verus!
