use obc::faults::{clear_faults, evaluate_faults, has_active_faults, FaultReadings};
use obc::modes::force_safe_mode;
use obc::post::{boot, run_post, PostReadings};
use obc::state::{FaultsState, OBCMode, OBCState, PayloadState, PayloadStatus, PowerMode};
use obc::subsystems::{update_subsystems, PowerReadings};

fn calm() -> FaultReadings {
    FaultReadings { battery_low: false, overheated: false, rssi_weak: false, gyro_excessive: false }
}

fn healthy_post() -> PostReadings {
    PostReadings {
        battery_voltage_ok: true,
        battery_current_ok: true,
        temps_ok: true,
        rssi_ok: true,
        attitude_still: true,
    }
}

#[test]
fn boot_state() {
    let s = OBCState::new();
    assert_eq!(s.mode, OBCMode::Normal);
    assert_eq!(s.power.mode, PowerMode::Normal);
    assert!(s.power.charging);
    assert!(s.comms.radio_on);
    assert_eq!(PayloadState::new(), PayloadState { payload_on: true, status: PayloadStatus::Idle });
    assert!(!has_active_faults(&s));
    assert_eq!(FaultsState::new(), s.faults);
}

#[test]
fn evaluation_latches_and_forces_safe_mode() {
    let mut s = OBCState::new();
    assert!(!evaluate_faults(&mut s, &calm()));
    assert_eq!(s, OBCState::new());
    let r = FaultReadings { overheated: true, ..calm() };
    assert!(evaluate_faults(&mut s, &r));
    assert!(s.faults.temp_fault);
    assert_eq!(s.mode, OBCMode::Safe);
    // The condition goes away; the fault stays latched.
    assert!(evaluate_faults(&mut s, &calm()));
    assert!(s.faults.temp_fault);
    clear_faults(&mut s);
    assert!(!has_active_faults(&s));
    assert_eq!(s.mode, OBCMode::Safe);
}

#[test]
fn discrete_fault_conditions() {
    let mut s = OBCState::new();
    s.comms.radio_on = false;
    assert!(evaluate_faults(&mut s, &calm()));
    assert!(s.faults.comms_fault);
    let mut t = OBCState::new();
    t.power.mode = PowerMode::Critical;
    assert!(evaluate_faults(&mut t, &calm()));
    assert!(t.faults.power_fault);
    let mut u = OBCState::new();
    u.payload.status = PayloadStatus::Error;
    assert!(evaluate_faults(&mut u, &calm()));
    assert!(u.faults.payload_fault);
}

#[test]
fn force_safe_mode_only_changes_mode() {
    let mut s = OBCState::new();
    force_safe_mode(&mut s);
    let mut expected = OBCState::new();
    expected.mode = OBCMode::Safe;
    assert_eq!(s, expected);
}

#[test]
fn post_checks() {
    let s = OBCState::new();
    // At boot the ADCS detumbles, which the self test accepts.
    assert!(run_post(&s, &healthy_post()));
    assert!(!run_post(&s, &PostReadings { rssi_ok: false, ..healthy_post() }));
    let mut f = OBCState::new();
    f.faults.adcs_fault = true;
    assert!(!run_post(&f, &healthy_post()));
    let mut late = OBCState::new();
    late.comms.last_downlink_ms = 30_000;
    assert!(!run_post(&late, &healthy_post()));
}

#[test]
fn tick_updates() {
    let mut s = OBCState::new();
    update_subsystems(&mut s, 1000, &PowerReadings { solar_charging: false, battery_below_nominal: true });
    assert_eq!(s.power.mode, PowerMode::LowPower);
    assert!(!s.power.charging);
    assert_eq!(s.comms.last_uplink_ms, 1000);
    assert_eq!(s.comms.last_downlink_ms, 1000);
    assert_eq!(s.payload.status, PayloadStatus::Busy);
    s.payload.payload_on = false;
    update_subsystems(&mut s, 500, &PowerReadings { solar_charging: true, battery_below_nominal: false });
    assert_eq!(s.power.mode, PowerMode::Normal);
    assert_eq!(s.comms.last_uplink_ms, 1500);
    assert_eq!(s.payload.status, PayloadStatus::Idle);
}

#[test]
fn boot_enters_safe_mode_when_post_fails() {
    let (s, passed) = boot(&healthy_post());
    assert!(passed);
    assert_eq!(s, OBCState::new());
    let (s, passed) = boot(&PostReadings { temps_ok: false, ..healthy_post() });
    assert!(!passed);
    assert_eq!(s.mode, OBCMode::Safe);
}

#[test]
fn tick_keeps_mode_and_faults() {
    let mut s = OBCState::new();
    s.mode = OBCMode::Safe;
    s.faults.temp_fault = true;
    update_subsystems(&mut s, 1000, &PowerReadings { solar_charging: true, battery_below_nominal: false });
    assert_eq!(s.mode, OBCMode::Safe);
    assert!(s.faults.temp_fault);
}

#[test]
fn evaluation_is_idempotent() {
    let r = FaultReadings { gyro_excessive: true, ..calm() };
    let mut once = OBCState::new();
    evaluate_faults(&mut once, &r);
    let mut twice = once;
    evaluate_faults(&mut twice, &r);
    assert_eq!(once, twice);
}
