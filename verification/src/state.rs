use vstd::prelude::*;

verus! {

/// The operating mode of the on-board computer.
#[derive(Clone, Copy, Debug, PartialEq, Eq, Structural)]
pub enum OBCMode {
    Normal,
    Safe,
}

/// The operating mode of the power subsystem.
#[derive(Clone, Copy, Debug, PartialEq, Eq, Structural)]
pub enum PowerMode {
    Normal,
    LowPower,
    Critical,
}

/// The discrete part of the power subsystem's state.
#[derive(Clone, Copy, Debug, PartialEq, Eq, Structural)]
pub struct PowerState {
    pub mode: PowerMode,
    pub charging: bool,
}

/// The discrete part of the communications subsystem's state: whether the
/// radio is on, and the milliseconds since the last uplink and downlink.
#[derive(Clone, Copy, Debug, PartialEq, Eq, Structural)]
pub struct CommsState {
    pub radio_on: bool,
    pub last_uplink_ms: u64,
    pub last_downlink_ms: u64,
}

/// What the payload is doing.
#[derive(Clone, Copy, Debug, PartialEq, Eq, Structural)]
pub enum PayloadStatus {
    Idle,
    Busy,
    Error,
}

/// The payload subsystem's state.
#[derive(Clone, Copy, Debug, PartialEq, Eq, Structural)]
pub struct PayloadState {
    pub payload_on: bool,
    pub status: PayloadStatus,
}

/// The attitude determination and control system's mode.
#[derive(Clone, Copy, Debug, PartialEq, Eq, Structural)]
pub enum ADCSStatus {
    Detumble,
    Nominal,
    Safe,
}

/// The discrete part of the attitude subsystem's state.
#[derive(Clone, Copy, Debug, PartialEq, Eq, Structural)]
pub struct ADCSState {
    pub status: ADCSStatus,
}

/// The latched fault flag of each subsystem.
#[derive(Clone, Copy, Debug, PartialEq, Eq, Structural)]
pub struct FaultsState {
    pub power_fault: bool,
    pub temp_fault: bool,
    pub comms_fault: bool,
    pub payload_fault: bool,
    pub adcs_fault: bool,
}

/// The discrete state of the on-board computer: its mode and the discrete
/// state of each subsystem. Analog readings (voltages, temperatures, signal
/// strength, rates) are kept beside it by the runtime.
#[derive(Clone, Copy, Debug, PartialEq, Eq, Structural)]
pub struct OBCState {
    pub mode: OBCMode,
    pub power: PowerState,
    pub comms: CommsState,
    pub payload: PayloadState,
    pub adcs: ADCSState,
    pub faults: FaultsState,
}

/// No fault flag set.
pub open spec fn no_faults() -> FaultsState {
    FaultsState {
        power_fault: false,
        temp_fault: false,
        comms_fault: false,
        payload_fault: false,
        adcs_fault: false,
    }
}

/// Whether any fault flag is set.
pub open spec fn any_fault(f: FaultsState) -> bool {
    f.power_fault || f.temp_fault || f.comms_fault || f.payload_fault || f.adcs_fault
}

/// The power subsystem at boot.
pub open spec fn initial_power() -> PowerState {
    PowerState { mode: PowerMode::Normal, charging: true }
}

/// The communications subsystem at boot and after a radio reset.
pub open spec fn initial_comms() -> CommsState {
    CommsState { radio_on: true, last_uplink_ms: 0, last_downlink_ms: 0 }
}

/// The payload subsystem at boot.
pub open spec fn initial_payload() -> PayloadState {
    PayloadState { payload_on: true, status: PayloadStatus::Idle }
}

/// The attitude subsystem at boot.
pub open spec fn initial_adcs() -> ADCSState {
    ADCSState { status: ADCSStatus::Detumble }
}

/// The whole computer at boot: normal mode, every subsystem in its boot state.
pub open spec fn initial_state() -> OBCState {
    OBCState {
        mode: OBCMode::Normal,
        power: initial_power(),
        comms: initial_comms(),
        payload: initial_payload(),
        adcs: initial_adcs(),
        faults: no_faults(),
    }
}

impl OBCState {
    pub fn new() -> (r: Self)
        ensures
            r == initial_state(),
    {
        OBCState {
            mode: OBCMode::Normal,
            power: PowerState::new(),
            comms: CommsState::new(),
            payload: PayloadState::new(),
            adcs: ADCSState::new(),
            faults: FaultsState::new(),
        }
    }
}

impl PowerState {
    pub fn new() -> (r: Self)
        ensures
            r == initial_power(),
    {
        PowerState { mode: PowerMode::Normal, charging: true }
    }
}

impl CommsState {
    pub fn new() -> (r: Self)
        ensures
            r == initial_comms(),
    {
        CommsState { radio_on: true, last_uplink_ms: 0, last_downlink_ms: 0 }
    }
}

impl PayloadState {
    pub fn new() -> (r: Self)
        ensures
            r == initial_payload(),
    {
        PayloadState { payload_on: true, status: PayloadStatus::Idle }
    }
}

impl ADCSState {
    pub fn new() -> (r: Self)
        ensures
            r == initial_adcs(),
    {
        ADCSState { status: ADCSStatus::Detumble }
    }
}

impl FaultsState {
    pub fn new() -> (r: Self)
        ensures
            r == no_faults(),
    {
        FaultsState {
            power_fault: false,
            temp_fault: false,
            comms_fault: false,
            payload_fault: false,
            adcs_fault: false,
        }
    }
}

} // verus!
