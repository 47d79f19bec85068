use obc::actions::{LogLevel, StorageCommand};
use obc::state::{OBCMode, OBCState, PayloadStatus};
use obc::storage::{
    apply_external_changes, corrupt_record, default_record, initialise_storage, storage_outcome,
    test_data_lines, write_state, Directive, StorageNote,
};

fn chars(s: &str) -> Vec<char> {
    s.chars().collect()
}

fn texts(notes: &[StorageNote]) -> Vec<String> {
    notes.iter().map(|n| n.text()).collect()
}

#[test]
fn default_record_text() {
    assert_eq!(
        default_record(),
        "MODE=NORMAL\nBATTERY=OK\nCOMMS=OK\nPAYLOAD=OK\nLAST_PACKET=\nFAULT=NONE\n"
    );
}

#[test]
fn write_state_text() {
    let mut s = OBCState::new();
    s.mode = OBCMode::Safe;
    s.comms.radio_on = false;
    s.payload.status = PayloadStatus::Error;
    s.faults.payload_fault = true;
    assert_eq!(
        write_state(&s, false, "01 01 01"),
        "MODE=SAFE\nBATTERY=FAIL\nCOMMS=FAIL\nPAYLOAD=FAIL\nLAST_PACKET=01 01 01\nFAULT=ACTIVE\n"
    );
}

#[test]
fn apply_changes_from_file() {
    let mut s = OBCState::new();
    s.faults.comms_fault = true;
    let contents = chars("MODE=SAFE\r\n BATTERY = FAIL \nCOMMS=FAIL\nPAYLOAD=FAIL\nLAST_PACKET= 02 01 00 \nFAULT=NONE\n\n=orphan\nBOGUS=1\n");
    let notes = apply_external_changes(&mut s, &contents);
    assert_eq!(s.mode, OBCMode::Safe);
    assert!(!s.comms.radio_on);
    assert_eq!(s.payload.status, PayloadStatus::Error);
    assert!(!s.faults.comms_fault);
    assert_eq!(
        texts(&notes),
        vec![
            "Applied MODE=SAFE",
            "Applied BATTERY=FAIL",
            "Applied COMMS=FAIL",
            "Applied PAYLOAD=FAIL",
            "External LAST_PACKET observed: 02 01 00",
            "Applied FAULT=NONE",
            "Ignored invalid storage key/value: BOGUS=1",
        ]
    );
}

#[test]
fn read_back_written_record() {
    let mut s = OBCState::new();
    s.mode = OBCMode::Safe;
    s.payload.status = PayloadStatus::Busy;
    let text = write_state(&s, true, "07 01 03");
    let mut into = OBCState::new();
    into.payload.status = PayloadStatus::Error;
    let notes = apply_external_changes(&mut into, &chars(&text));
    assert_eq!(into.mode, OBCMode::Safe);
    assert_eq!(into.payload.status, PayloadStatus::Idle);
    assert!(matches!(notes[0], StorageNote::Applied(Directive::ModeSafe)));
    assert_eq!(notes.len(), 6);
    assert_eq!(notes[4].text(), "External LAST_PACKET observed: 07 01 03");
}

#[test]
fn active_fault_record_is_not_a_setting() {
    let mut s = OBCState::new();
    s.faults.adcs_fault = true;
    let text = write_state(&s, true, "");
    let mut into = OBCState::new();
    into.faults.temp_fault = true;
    let notes = apply_external_changes(&mut into, &chars(&text));
    assert!(into.faults.temp_fault);
    assert_eq!(notes.len(), 5);
    assert_eq!(notes[4].text(), "Ignored invalid storage key/value: FAULT=ACTIVE");
}

#[test]
fn corrupt_record_is_ignored() {
    let mut s = OBCState::new();
    let notes = apply_external_changes(&mut s, &chars(corrupt_record()));
    assert_eq!(s, OBCState::new());
    assert_eq!(
        texts(&notes),
        vec![
            "Ignored invalid storage key/value: MODE=GARBAGE",
            "Ignored invalid storage key/value: BATTERY=???",
            "Ignored invalid storage key/value: CORRUPT=FF FF FF",
        ]
    );
    assert_eq!(corrupt_record(), "MODE=GARBAGE\nBATTERY=???\nCORRUPT=FF FF FF\n");
    assert_eq!(test_data_lines(), "TEST_COUNTER=1\nTEST_DATA=AA BB CC\n");
}

#[test]
fn trailing_carriage_return_kept_on_last_line() {
    let mut s = OBCState::new();
    let notes = apply_external_changes(&mut s, &chars("X=1\r"));
    assert_eq!(texts(&notes), vec!["Ignored invalid storage key/value: X=1\r"]);
}

#[test]
fn storage_start_up_and_outcomes() {
    assert_eq!(initialise_storage(true), None);
    assert_eq!(initialise_storage(false), Some(StorageCommand::RestoreDefaults));
    let (l, t) = storage_outcome(StorageCommand::Dump, true, "MODE=NORMAL\n");
    assert_eq!(l, LogLevel::Info);
    assert_eq!(t, "STORAGE DUMP\nMODE=NORMAL\n");
    let (l, t) = storage_outcome(StorageCommand::Clear, false, "denied");
    assert_eq!(l, LogLevel::Error);
    assert_eq!(t, "Storage clear failed: denied");
    let (l, t) = storage_outcome(StorageCommand::Corrupt, true, "");
    assert_eq!(l, LogLevel::Warn);
    assert_eq!(t, "Storage deliberately corrupted");
}
