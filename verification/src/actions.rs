use vstd::prelude::*;

use crate::state::OBCState;

verus! {

/// Severity of a log line.
#[derive(Clone, Copy, Debug, PartialEq, Eq, Structural)]
pub enum LogLevel {
    Info,
    Warn,
    Error,
}

/// The tag that a log line carries for its level.
pub open spec fn level_text(l: LogLevel) -> Seq<char> {
    match l {
        LogLevel::Info => "INFO"@,
        LogLevel::Warn => "WARN"@,
        LogLevel::Error => "ERROR"@,
    }
}

impl LogLevel {
    /// The tag written in log lines for this level.
    pub fn tag(&self) -> (r: &'static str)
        ensures
            r@ == level_text(*self),
    {
        match self {
            LogLevel::Info => "INFO",
            LogLevel::Warn => "WARN",
            LogLevel::Error => "ERROR",
        }
    }
}

/// The fixed messages that command handling and fault tests log.
#[derive(Clone, Copy, Debug, PartialEq, Eq, Structural)]
pub enum Notice {
    RejectedCommandType,
    /// The command family given needs exactly one value byte.
    SingleValueRequired(SingleValueCommand),
    SystemLengthMismatch,
    ShutdownRequested,
    SystemInvalidLength,
    InvalidModeValue,
    ModeChanged,
    ModeTransitionBlocked,
    InvalidTelemetryValue,
    RadioDisabled,
    RadioEnabled,
    TransmitMode,
    ReceiveMode,
    RadioReset,
    InvalidCommsValue,
    PayloadDisabled,
    PayloadEnabled,
    CaptureStarted,
    CaptureStopped,
    BufferClearRequested,
    InvalidPayloadValue,
    AdcsDisabled,
    AdcsEnabled,
    DetumbleSet,
    SunPointingSet,
    NadirPointingSet,
    SafePointingSet,
    InvalidAdcsValue,
    FaultsCleared,
    SubsystemsReset,
    CommsReset,
    PayloadReset,
    AdcsReset,
    InvalidFaultManagementValue,
    SafeModeEnforced,
    FaultInjectionExecuted,
    BitFlipSimulated,
    MemoryCorruptionSimulated,
    BufferOverflowTested,
    RaceConditionSimulated,
    StackCorruptionGuarded,
    NullPointerPrevented,
    SubsystemFailureInjected,
    PacketCorruptionInjected,
    UnknownFaultTest,
    StorageLengthMismatch,
    InvalidStorageValue,
    StorageInvalidLength,
}

/// The command families whose commands carry exactly one value byte.
#[derive(Clone, Copy, Debug, PartialEq, Eq, Structural)]
pub enum SingleValueCommand {
    Telemetry,
    Comms,
    Payload,
    Adcs,
    FaultManagement,
    FaultInjection,
}

/// The text of each notice.
pub open spec fn notice_text(n: Notice) -> Seq<char> {
    match n {
        Notice::RejectedCommandType => "Rejected invalid command type"@,
        Notice::SingleValueRequired(c) => match c {
            SingleValueCommand::Telemetry => "Telemetry command requires length 0x01"@,
            SingleValueCommand::Comms => "Comms command requires length 0x01"@,
            SingleValueCommand::Payload => "Payload command requires length 0x01"@,
            SingleValueCommand::Adcs => "ADCS command requires length 0x01"@,
            SingleValueCommand::FaultManagement => "Fault management command requires length 0x01"@,
            SingleValueCommand::FaultInjection => "Fault injection command requires length 0x01"@,
        },
        Notice::SystemLengthMismatch => "System command length/value mismatch"@,
        Notice::ShutdownRequested => "Shutdown requested via 01 00"@,
        Notice::SystemInvalidLength => "System command invalid length"@,
        Notice::InvalidModeValue => "Invalid mode value"@,
        Notice::ModeChanged => "Mode changed successfully"@,
        Notice::ModeTransitionBlocked => "Invalid mode transition blocked"@,
        Notice::InvalidTelemetryValue => "Invalid telemetry value"@,
        Notice::RadioDisabled => "Radio disabled"@,
        Notice::RadioEnabled => "Radio enabled"@,
        Notice::TransmitMode => "Comms switched to transmit mode"@,
        Notice::ReceiveMode => "Comms switched to receive mode"@,
        Notice::RadioReset => "Radio reset complete"@,
        Notice::InvalidCommsValue => "Invalid comms value"@,
        Notice::PayloadDisabled => "Payload disabled"@,
        Notice::PayloadEnabled => "Payload enabled"@,
        Notice::CaptureStarted => "Payload capture started"@,
        Notice::CaptureStopped => "Payload capture stopped"@,
        Notice::BufferClearRequested => "Payload buffer clear requested"@,
        Notice::InvalidPayloadValue => "Invalid payload value"@,
        Notice::AdcsDisabled => "ADCS disabled"@,
        Notice::AdcsEnabled => "ADCS enabled"@,
        Notice::DetumbleSet => "ADCS detumble mode set"@,
        Notice::SunPointingSet => "ADCS sun-pointing target set"@,
        Notice::NadirPointingSet => "ADCS nadir-pointing target set"@,
        Notice::SafePointingSet => "ADCS safe pointing set"@,
        Notice::InvalidAdcsValue => "Invalid ADCS value"@,
        Notice::FaultsCleared => "All faults cleared"@,
        Notice::SubsystemsReset => "All subsystems reset"@,
        Notice::CommsReset => "Comms reset"@,
        Notice::PayloadReset => "Payload reset"@,
        Notice::AdcsReset => "ADCS reset"@,
        Notice::InvalidFaultManagementValue => "Invalid fault management value"@,
        Notice::SafeModeEnforced => "Fault condition active: SAFE mode enforced"@,
        Notice::FaultInjectionExecuted => "Fault injection executed"@,
        Notice::BitFlipSimulated => "Bit flip simulation: [1, 0, 0]"@,
        Notice::MemoryCorruptionSimulated => "Memory corruption simulation applied to battery_voltage"@,
        Notice::BufferOverflowTested => "Buffer overflow test result: None"@,
        Notice::RaceConditionSimulated => "Race condition test simulated (single-threaded runtime)"@,
        Notice::StackCorruptionGuarded => "Stack corruption test guarded, first byte=0"@,
        Notice::NullPointerPrevented => "Null pointer test prevented safely"@,
        Notice::SubsystemFailureInjected => "Subsystem failure injected"@,
        Notice::PacketCorruptionInjected => "Packet corruption injected"@,
        Notice::UnknownFaultTest => "Unknown fault test requested"@,
        Notice::StorageLengthMismatch => "Storage command length/value mismatch"@,
        Notice::InvalidStorageValue => "Invalid storage value"@,
        Notice::StorageInvalidLength => "Storage command invalid length"@,
    }
}

impl Notice {
    /// The message text of this notice.
    pub fn text(&self) -> (r: &'static str)
        ensures
            r@ == notice_text(*self),
    {
        match self {
            Notice::RejectedCommandType => "Rejected invalid command type",
            Notice::SingleValueRequired(c) => match c {
                SingleValueCommand::Telemetry => "Telemetry command requires length 0x01",
                SingleValueCommand::Comms => "Comms command requires length 0x01",
                SingleValueCommand::Payload => "Payload command requires length 0x01",
                SingleValueCommand::Adcs => "ADCS command requires length 0x01",
                SingleValueCommand::FaultManagement => "Fault management command requires length 0x01",
                SingleValueCommand::FaultInjection => "Fault injection command requires length 0x01",
            },
            Notice::SystemLengthMismatch => "System command length/value mismatch",
            Notice::ShutdownRequested => "Shutdown requested via 01 00",
            Notice::SystemInvalidLength => "System command invalid length",
            Notice::InvalidModeValue => "Invalid mode value",
            Notice::ModeChanged => "Mode changed successfully",
            Notice::ModeTransitionBlocked => "Invalid mode transition blocked",
            Notice::InvalidTelemetryValue => "Invalid telemetry value",
            Notice::RadioDisabled => "Radio disabled",
            Notice::RadioEnabled => "Radio enabled",
            Notice::TransmitMode => "Comms switched to transmit mode",
            Notice::ReceiveMode => "Comms switched to receive mode",
            Notice::RadioReset => "Radio reset complete",
            Notice::InvalidCommsValue => "Invalid comms value",
            Notice::PayloadDisabled => "Payload disabled",
            Notice::PayloadEnabled => "Payload enabled",
            Notice::CaptureStarted => "Payload capture started",
            Notice::CaptureStopped => "Payload capture stopped",
            Notice::BufferClearRequested => "Payload buffer clear requested",
            Notice::InvalidPayloadValue => "Invalid payload value",
            Notice::AdcsDisabled => "ADCS disabled",
            Notice::AdcsEnabled => "ADCS enabled",
            Notice::DetumbleSet => "ADCS detumble mode set",
            Notice::SunPointingSet => "ADCS sun-pointing target set",
            Notice::NadirPointingSet => "ADCS nadir-pointing target set",
            Notice::SafePointingSet => "ADCS safe pointing set",
            Notice::InvalidAdcsValue => "Invalid ADCS value",
            Notice::FaultsCleared => "All faults cleared",
            Notice::SubsystemsReset => "All subsystems reset",
            Notice::CommsReset => "Comms reset",
            Notice::PayloadReset => "Payload reset",
            Notice::AdcsReset => "ADCS reset",
            Notice::InvalidFaultManagementValue => "Invalid fault management value",
            Notice::SafeModeEnforced => "Fault condition active: SAFE mode enforced",
            Notice::FaultInjectionExecuted => "Fault injection executed",
            Notice::BitFlipSimulated => "Bit flip simulation: [1, 0, 0]",
            Notice::MemoryCorruptionSimulated => "Memory corruption simulation applied to battery_voltage",
            Notice::BufferOverflowTested => "Buffer overflow test result: None",
            Notice::RaceConditionSimulated => "Race condition test simulated (single-threaded runtime)",
            Notice::StackCorruptionGuarded => "Stack corruption test guarded, first byte=0",
            Notice::NullPointerPrevented => "Null pointer test prevented safely",
            Notice::SubsystemFailureInjected => "Subsystem failure injected",
            Notice::PacketCorruptionInjected => "Packet corruption injected",
            Notice::UnknownFaultTest => "Unknown fault test requested",
            Notice::StorageLengthMismatch => "Storage command length/value mismatch",
            Notice::InvalidStorageValue => "Invalid storage value",
            Notice::StorageInvalidLength => "Storage command invalid length",
        }
    }
}

/// Which telemetry report a telemetry command asks for.
#[derive(Clone, Copy, Debug, PartialEq, Eq, Structural)]
pub enum TelemetryKind {
    Full,
    Power,
    Temps,
    Comms,
    Payload,
    Adcs,
}

/// An operation on the persistent storage file.
#[derive(Clone, Copy, Debug, PartialEq, Eq, Structural)]
pub enum StorageCommand {
    Dump,
    Clear,
    WriteTestData,
    Corrupt,
    RestoreDefaults,
}

/// A change to the analog readings that a command makes.
#[derive(Clone, Copy, Debug, PartialEq, Eq, Structural)]
pub enum AnalogEffect {
    /// Signal strength back to its nominal -70 dBm.
    RadioLinkReset,
    /// Gyro and magnetometer readings back to zero.
    AttitudeReset,
    /// Every analog reading back to its boot value.
    AllReset,
    /// Battery voltage overwritten with -1.0 V.
    BatteryCorrupted,
    /// Gyro rates overwritten with (6.0, 0.0, 0.0).
    GyroSpike,
    /// OBC board temperature overwritten with 95.0 degrees C.
    BoardOverheat,
}

/// Outside work that handling a command asks the runtime to do, in order.
#[derive(Clone, Copy, Debug, PartialEq, Eq, Structural)]
pub enum Action {
    /// Log at the packet's timestamp, on the console and in the log file.
    Log(LogLevel, Notice),
    /// Log at the current time, in the log file only.
    Record(LogLevel, Notice),
    /// Emit a telemetry report; the discrete state as it stood then is attached.
    Report(TelemetryKind, OBCState),
    /// Copy the warning and error lines of the log file into the error dump.
    DumpErrorLogs,
    /// Carry out an operation on the storage file.
    Storage(StorageCommand),
    /// Apply a change to the analog readings.
    Analog(AnalogEffect),
}

} // verus!
