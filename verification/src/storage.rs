use vstd::prelude::*;

use crate::actions::{LogLevel, StorageCommand};
use crate::faults::{clear_faults, has_active_faults};
use crate::state::{any_fault, no_faults, CommsState, OBCMode, OBCState, PayloadState, PayloadStatus};
use crate::text::{
    chars_to_string, copy_range, len_before, lemma_len_before, split_lines, strip_cr, text_lines,
    trim, trim_end, trim_range, trim_start, is_whitespace,
};

verus! {

// The words of the storage record format.
pub open spec fn mode_key() -> Seq<char> { seq!['M', 'O', 'D', 'E'] }
pub open spec fn battery_key() -> Seq<char> { seq!['B', 'A', 'T', 'T', 'E', 'R', 'Y'] }
pub open spec fn comms_key() -> Seq<char> { seq!['C', 'O', 'M', 'M', 'S'] }
pub open spec fn payload_key() -> Seq<char> { seq!['P', 'A', 'Y', 'L', 'O', 'A', 'D'] }
pub open spec fn last_packet_key() -> Seq<char> {
    seq!['L', 'A', 'S', 'T', '_', 'P', 'A', 'C', 'K', 'E', 'T']
}
pub open spec fn fault_key() -> Seq<char> { seq!['F', 'A', 'U', 'L', 'T'] }
pub open spec fn normal_word() -> Seq<char> { seq!['N', 'O', 'R', 'M', 'A', 'L'] }
pub open spec fn safe_word() -> Seq<char> { seq!['S', 'A', 'F', 'E'] }
pub open spec fn ok_word() -> Seq<char> { seq!['O', 'K'] }
pub open spec fn fail_word() -> Seq<char> { seq!['F', 'A', 'I', 'L'] }
pub open spec fn none_word() -> Seq<char> { seq!['N', 'O', 'N', 'E'] }
pub open spec fn active_word() -> Seq<char> { seq!['A', 'C', 'T', 'I', 'V', 'E'] }

/// One `KEY=VALUE` line of the storage record, with its line ending.
pub open spec fn field_line(key: Seq<char>, value: Seq<char>) -> Seq<char> {
    key + seq!['='] + value + seq!['\n']
}

/// The storage record that describes a state: its mode, the battery (OK when
/// the voltage is at least 3.3 V, which `battery_ok` says), the radio, the
/// payload, the last accepted packet and whether a fault is active.
pub open spec fn record_text(s: OBCState, battery_ok: bool, last_packet: Seq<char>) -> Seq<char> {
    field_line(mode_key(), if s.mode == OBCMode::Normal { normal_word() } else { safe_word() })
        + field_line(battery_key(), if battery_ok { ok_word() } else { fail_word() })
        + field_line(comms_key(), if s.comms.radio_on { ok_word() } else { fail_word() })
        + field_line(
        payload_key(),
        if s.payload.status == PayloadStatus::Error { fail_word() } else { ok_word() },
    ) + field_line(last_packet_key(), last_packet)
        + field_line(fault_key(), if any_fault(s.faults) { active_word() } else { none_word() })
}

/// A setting that a line of the storage file asks for.
#[derive(Clone, Copy, Debug, PartialEq, Eq, Structural)]
pub enum Directive {
    ModeNormal,
    ModeSafe,
    BatteryFail,
    BatteryOk,
    CommsFail,
    CommsOk,
    PayloadFail,
    PayloadOk,
    FaultNone,
}

/// The setting that a key and a value name, if they name one.
pub open spec fn directive_of(key: Seq<char>, value: Seq<char>) -> Option<Directive> {
    if key == mode_key() && value == normal_word() {
        Some(Directive::ModeNormal)
    } else if key == mode_key() && value == safe_word() {
        Some(Directive::ModeSafe)
    } else if key == battery_key() && value == fail_word() {
        Some(Directive::BatteryFail)
    } else if key == battery_key() && value == ok_word() {
        Some(Directive::BatteryOk)
    } else if key == comms_key() && value == fail_word() {
        Some(Directive::CommsFail)
    } else if key == comms_key() && value == ok_word() {
        Some(Directive::CommsOk)
    } else if key == payload_key() && value == fail_word() {
        Some(Directive::PayloadFail)
    } else if key == payload_key() && value == ok_word() {
        Some(Directive::PayloadOk)
    } else if key == fault_key() && value == none_word() {
        Some(Directive::FaultNone)
    } else {
        None
    }
}

/// The discrete state after a setting is applied. The battery settings act on
/// the analog battery voltage only (FAIL sets 3.2 V; OK raises a voltage under
/// 3.7 V to 3.9 V), which the runtime applies.
pub open spec fn apply_directive(s: OBCState, d: Directive) -> OBCState {
    match d {
        Directive::ModeNormal => OBCState { mode: OBCMode::Normal, ..s },
        Directive::ModeSafe => OBCState { mode: OBCMode::Safe, ..s },
        Directive::BatteryFail => s,
        Directive::BatteryOk => s,
        Directive::CommsFail => OBCState { comms: CommsState { radio_on: false, ..s.comms }, ..s },
        Directive::CommsOk => OBCState { comms: CommsState { radio_on: true, ..s.comms }, ..s },
        Directive::PayloadFail => OBCState {
            payload: PayloadState { status: PayloadStatus::Error, ..s.payload },
            ..s
        },
        Directive::PayloadOk => OBCState {
            payload: PayloadState { status: PayloadStatus::Idle, ..s.payload },
            ..s
        },
        Directive::FaultNone => OBCState { faults: no_faults(), ..s },
    }
}

/// A note about one line of the storage file.
pub enum StorageNote {
    /// The line's setting was applied.
    Applied(Directive),
    /// A last packet was recorded in the file; its value is attached.
    LastPacketObserved(Vec<char>),
    /// The line was not understood; the line is attached.
    Ignored(Vec<char>),
}

/// A storage note with its text taken as a sequence.
pub enum StorageNoteView {
    Applied(Directive),
    LastPacketObserved(Seq<char>),
    Ignored(Seq<char>),
}

impl View for StorageNote {
    type V = StorageNoteView;

    open spec fn view(&self) -> StorageNoteView {
        match self {
            StorageNote::Applied(d) => StorageNoteView::Applied(*d),
            StorageNote::LastPacketObserved(v) => StorageNoteView::LastPacketObserved(v@),
            StorageNote::Ignored(l) => StorageNoteView::Ignored(l@),
        }
    }
}

/// The key of a storage line: the text before its first `=`, trimmed.
pub open spec fn line_key(l: Seq<char>) -> Seq<char> {
    trim(l.take(len_before(l, '=') as int))
}

/// The value of a storage line: the text after its first `=`, trimmed, or
/// nothing when the line has no `=`.
pub open spec fn line_value(l: Seq<char>) -> Seq<char> {
    if len_before(l, '=') < l.len() {
        trim(l.skip((len_before(l, '=') + 1) as int))
    } else {
        seq![]
    }
}

/// What one line of the storage file does: apply a setting, note a recorded
/// last packet (when its value is not empty), or note an unknown line (when its
/// key is not empty); a line with an empty key and no setting does nothing.
#[verifier::opaque]
pub open spec fn line_effect(l: Seq<char>) -> Option<StorageNoteView> {
    match directive_of(line_key(l), line_value(l)) {
        Some(d) => Some(StorageNoteView::Applied(d)),
        None => if line_key(l) == last_packet_key() {
            if line_value(l).len() > 0 {
                Some(StorageNoteView::LastPacketObserved(line_value(l)))
            } else {
                None
            }
        } else if line_key(l).len() > 0 {
            Some(StorageNoteView::Ignored(l))
        } else {
            None
        },
    }
}

/// The state after a line's note.
pub open spec fn apply_note(s: OBCState, n: Option<StorageNoteView>) -> OBCState {
    match n {
        Some(StorageNoteView::Applied(d)) => apply_directive(s, d),
        _ => s,
    }
}

/// The state and notes after reading the given lines in order.
#[verifier::opaque]
pub open spec fn apply_lines(s: OBCState, ls: Seq<Seq<char>>) -> (OBCState, Seq<StorageNoteView>)
    decreases ls.len(),
{
    if ls.len() == 0 {
        (s, seq![])
    } else {
        let (s1, notes) = apply_lines(s, ls.drop_last());
        let e = line_effect(ls.last());
        (
            apply_note(s1, e),
            match e {
                Some(n) => notes.push(n),
                None => notes,
            },
        )
    }
}

/// Whether `s[a..b]` is the word `w`.
fn range_is(s: &[char], a: usize, b: usize, w: &[char]) -> (r: bool)
    requires
        a <= b <= s@.len(),
    ensures
        r == (s@.subrange(a as int, b as int) == w@),
{
    if b - a != w.len() {
        return false;
    }
    let mut i: usize = 0;
    while i < w.len()
        invariant
            a <= b <= s@.len(),
            b - a == w@.len(),
            i <= w@.len(),
            forall|j: int| 0 <= j < i ==> s@[a + j] == w@[j],
        decreases w@.len() - i,
    {
        if s[a + i] != w[i] {
            assert(s@.subrange(a as int, b as int)[i as int] != w@[i as int]);
            return false;
        }
        i = i + 1;
    }
    assert(s@.subrange(a as int, b as int) =~= w@);
    true
}

/// The setting that `line[ka..kb]` and `line[va..vb]` name, if any.
fn classify(line: &[char], ka: usize, kb: usize, va: usize, vb: usize) -> (r: Option<Directive>)
    requires
        ka <= kb <= line@.len(),
        va <= vb <= line@.len(),
    ensures
        r == directive_of(line@.subrange(ka as int, kb as int), line@.subrange(va as int, vb as int)),
{
    let mode = ['M', 'O', 'D', 'E'];
    let battery = ['B', 'A', 'T', 'T', 'E', 'R', 'Y'];
    let comms = ['C', 'O', 'M', 'M', 'S'];
    let payload = ['P', 'A', 'Y', 'L', 'O', 'A', 'D'];
    let fault = ['F', 'A', 'U', 'L', 'T'];
    let normal = ['N', 'O', 'R', 'M', 'A', 'L'];
    let safe = ['S', 'A', 'F', 'E'];
    let ok = ['O', 'K'];
    let fail = ['F', 'A', 'I', 'L'];
    let none = ['N', 'O', 'N', 'E'];
    let is_ok = range_is(line, va, vb, &ok);
    let is_fail = range_is(line, va, vb, &fail);
    if range_is(line, ka, kb, &mode) {
        if range_is(line, va, vb, &normal) {
            Some(Directive::ModeNormal)
        } else if range_is(line, va, vb, &safe) {
            Some(Directive::ModeSafe)
        } else {
            None
        }
    } else if range_is(line, ka, kb, &battery) {
        if is_fail {
            Some(Directive::BatteryFail)
        } else if is_ok {
            Some(Directive::BatteryOk)
        } else {
            None
        }
    } else if range_is(line, ka, kb, &comms) {
        if is_fail {
            Some(Directive::CommsFail)
        } else if is_ok {
            Some(Directive::CommsOk)
        } else {
            None
        }
    } else if range_is(line, ka, kb, &payload) {
        if is_fail {
            Some(Directive::PayloadFail)
        } else if is_ok {
            Some(Directive::PayloadOk)
        } else {
            None
        }
    } else if range_is(line, ka, kb, &fault) && range_is(line, va, vb, &none) {
        Some(Directive::FaultNone)
    } else {
        None
    }
}

/// Applies a setting to the discrete state.
pub fn apply_setting(state: &mut OBCState, d: Directive)
    ensures
        *final(state) == apply_directive(*old(state), d),
{
    match d {
        Directive::ModeNormal => state.mode = OBCMode::Normal,
        Directive::ModeSafe => state.mode = OBCMode::Safe,
        Directive::BatteryFail => {},
        Directive::BatteryOk => {},
        Directive::CommsFail => state.comms.radio_on = false,
        Directive::CommsOk => state.comms.radio_on = true,
        Directive::PayloadFail => state.payload.status = PayloadStatus::Error,
        Directive::PayloadOk => state.payload.status = PayloadStatus::Idle,
        Directive::FaultNone => clear_faults(state),
    }
}

/// Reads one line of the storage file: returns its note, if it has one.
fn read_line(line: &[char]) -> (r: Option<StorageNote>)
    ensures
        match r {
            Some(n) => line_effect(line@) == Some(n@),
            None => line_effect(line@) is None,
        },
{
    reveal(line_effect);
    let n = line.len();
    let mut eq: usize = 0;
    while eq < n && line[eq] != '='
        invariant
            n == line@.len(),
            eq <= n,
            forall|j: int| 0 <= j < eq ==> line@[j] != '=',
        decreases n - eq,
    {
        eq = eq + 1;
    }
    proof {
        lemma_len_before(line@, '=', eq as int);
        assert(line@.take(eq as int) =~= line@.subrange(0, eq as int));
    }
    let (ka, kb) = trim_range(line, 0, eq);
    let (va, vb) = if eq < n {
        assert(line@.skip(eq + 1) =~= line@.subrange(eq + 1, n as int));
        trim_range(line, eq + 1, n)
    } else {
        (n, n)
    };
    assert(line@.subrange(ka as int, kb as int) == line_key(line@));
    assert(line@.subrange(va as int, vb as int) =~= line_value(line@));
    match classify(line, ka, kb, va, vb) {
        Some(d) => Some(StorageNote::Applied(d)),
        None => {
            let last_packet = ['L', 'A', 'S', 'T', '_', 'P', 'A', 'C', 'K', 'E', 'T'];
            if range_is(line, ka, kb, &last_packet) {
                if vb > va {
                    Some(StorageNote::LastPacketObserved(copy_range(line, va, vb)))
                } else {
                    None
                }
            } else if kb > ka {
                let whole = copy_range(line, 0, n);
                assert(whole@ =~= line@);
                Some(StorageNote::Ignored(whole))
            } else {
                None
            }
        },
    }
}

/// Reads the storage file's contents and applies the settings it holds to the
/// discrete state, returning a note for each line that did something or was
/// not understood.
pub fn apply_external_changes(state: &mut OBCState, contents: &[char]) -> (r: Vec<StorageNote>)
    ensures
        *final(state) == apply_lines(*old(state), text_lines(contents@)).0,
        r@.map_values(|n: StorageNote| n@) == apply_lines(*old(state), text_lines(contents@)).1,
{
    reveal(apply_lines);
    let lines = split_lines(contents);
    let ghost ls = text_lines(contents@);
    let ghost s0 = *state;
    let mut notes: Vec<StorageNote> = Vec::new();
    let mut i: usize = 0;
    assert(lines@.map_values(|l: Vec<char>| l@) == ls);
    assert(ls.take(0) =~= Seq::<Seq<char>>::empty());
    while i < lines.len()
        invariant
            i <= lines@.len(),
            lines@.map_values(|l: Vec<char>| l@) == ls,
            ls.len() == lines@.len(),
            s0 == *old(state),
            *state == apply_lines(s0, ls.take(i as int)).0,
            notes@.map_values(|n: StorageNote| n@) == apply_lines(s0, ls.take(i as int)).1,
        decreases lines@.len() - i,
    {
        proof {
            reveal(apply_lines);
        }
        assert(ls[i as int] == lines@[i as int]@);
        assert(ls.take(i + 1).drop_last() =~= ls.take(i as int));
        assert(ls.take(i + 1).last() == ls[i as int]);
        let note = read_line(lines[i].as_slice());
        match note {
            Some(n) => {
                if let StorageNote::Applied(d) = n {
                    apply_setting(state, d);
                }
                let ghost before = notes@.map_values(|n: StorageNote| n@);
                notes.push(n);
                assert(notes@.map_values(|n: StorageNote| n@) =~= before.push(n@));
            },
            None => {},
        }
        i = i + 1;
    }
    assert(ls.take(i as int) =~= ls);
    notes
}

/// The text of a storage note, as the runtime logs it.
pub open spec fn note_text(n: StorageNoteView) -> Seq<char> {
    match n {
        StorageNoteView::Applied(d) => match d {
            Directive::ModeNormal => "Applied MODE=NORMAL"@,
            Directive::ModeSafe => "Applied MODE=SAFE"@,
            Directive::BatteryFail => "Applied BATTERY=FAIL"@,
            Directive::BatteryOk => "Applied BATTERY=OK"@,
            Directive::CommsFail => "Applied COMMS=FAIL"@,
            Directive::CommsOk => "Applied COMMS=OK"@,
            Directive::PayloadFail => "Applied PAYLOAD=FAIL"@,
            Directive::PayloadOk => "Applied PAYLOAD=OK"@,
            Directive::FaultNone => "Applied FAULT=NONE"@,
        },
        StorageNoteView::LastPacketObserved(v) => "External LAST_PACKET observed: "@ + v,
        StorageNoteView::Ignored(l) => "Ignored invalid storage key/value: "@ + l,
    }
}

impl StorageNote {
    /// The text of this note.
    pub fn text(&self) -> (r: String)
        ensures
            r@ == note_text(self@),
    {
        match self {
            StorageNote::Applied(d) => String::from_str(
                match d {
                    Directive::ModeNormal => "Applied MODE=NORMAL",
                    Directive::ModeSafe => "Applied MODE=SAFE",
                    Directive::BatteryFail => "Applied BATTERY=FAIL",
                    Directive::BatteryOk => "Applied BATTERY=OK",
                    Directive::CommsFail => "Applied COMMS=FAIL",
                    Directive::CommsOk => "Applied COMMS=OK",
                    Directive::PayloadFail => "Applied PAYLOAD=FAIL",
                    Directive::PayloadOk => "Applied PAYLOAD=OK",
                    Directive::FaultNone => "Applied FAULT=NONE",
                },
            ),
            StorageNote::LastPacketObserved(v) => {
                let mut s = String::from_str("External LAST_PACKET observed: ");
                let tail = chars_to_string(v.as_slice());
                s.append(tail.as_str());
                s
            },
            StorageNote::Ignored(l) => {
                let mut s = String::from_str("Ignored invalid storage key/value: ");
                let tail = chars_to_string(l.as_slice());
                s.append(tail.as_str());
                s
            },
        }
    }
}

proof fn lemma_key_literals()
    ensures
        "MODE="@ == mode_key() + seq!['='],
        "BATTERY="@ == battery_key() + seq!['='],
        "COMMS="@ == comms_key() + seq!['='],
        "PAYLOAD="@ == payload_key() + seq!['='],
        "LAST_PACKET="@ == last_packet_key() + seq!['='],
        "FAULT="@ == fault_key() + seq!['='],
{
    reveal_strlit("MODE=");
    reveal_strlit("BATTERY=");
    reveal_strlit("COMMS=");
    reveal_strlit("PAYLOAD=");
    reveal_strlit("LAST_PACKET=");
    reveal_strlit("FAULT=");
    assert("MODE="@ =~= mode_key() + seq!['=']);
    assert("BATTERY="@ =~= battery_key() + seq!['=']);
    assert("COMMS="@ =~= comms_key() + seq!['=']);
    assert("PAYLOAD="@ =~= payload_key() + seq!['=']);
    assert("LAST_PACKET="@ =~= last_packet_key() + seq!['=']);
    assert("FAULT="@ =~= fault_key() + seq!['=']);
}

fn word_text(ok: bool, yes: &'static str, no: &'static str) -> (r: &'static str)
    ensures
        r == (if ok { yes } else { no }),
{
    if ok {
        yes
    } else {
        no
    }
}

proof fn lemma_value_literals()
    ensures
        "NORMAL"@ == normal_word(),
        "SAFE"@ == safe_word(),
        "OK"@ == ok_word(),
        "FAIL"@ == fail_word(),
        "ACTIVE"@ == active_word(),
        "NONE"@ == none_word(),
        "\n"@ == seq!['\n'],
{
    reveal_strlit("NORMAL");
    reveal_strlit("SAFE");
    reveal_strlit("OK");
    reveal_strlit("FAIL");
    reveal_strlit("ACTIVE");
    reveal_strlit("NONE");
    reveal_strlit("\n");
    assert("NORMAL"@ =~= normal_word());
    assert("SAFE"@ =~= safe_word());
    assert("OK"@ =~= ok_word());
    assert("FAIL"@ =~= fail_word());
    assert("ACTIVE"@ =~= active_word());
    assert("NONE"@ =~= none_word());
    assert("\n"@ =~= seq!['\n']);
}

fn append_field(out: &mut String, key_eq: &str, value: &str, Ghost(key): Ghost<Seq<char>>)
    requires
        key_eq@ == key + seq!['='],
    ensures
        final(out)@ == old(out)@ + field_line(key, value@),
{
    proof {
        lemma_value_literals();
    }
    out.append(key_eq);
    out.append(value);
    out.append("\n");
    assert(out@ =~= old(out)@ + field_line(key, value@));
}

/// Writes the storage record that describes the state (see `record_text`).
/// `battery_ok` says whether the battery voltage is at least 3.3 V.
pub fn write_state(state: &OBCState, battery_ok: bool, last_packet: &str) -> (r: String)
    ensures
        r@ == record_text(*state, battery_ok, last_packet@),
{
    proof {
        lemma_key_literals();
        lemma_value_literals();
    }
    let mut out = String::new();
    let mode = word_text(state.mode == OBCMode::Normal, "NORMAL", "SAFE");
    append_field(&mut out, "MODE=", mode, Ghost(mode_key()));
    assert(out@ =~= field_line(mode_key(), mode@));
    let battery = word_text(battery_ok, "OK", "FAIL");
    append_field(&mut out, "BATTERY=", battery, Ghost(battery_key()));
    let comms = word_text(state.comms.radio_on, "OK", "FAIL");
    append_field(&mut out, "COMMS=", comms, Ghost(comms_key()));
    let payload = word_text(state.payload.status == PayloadStatus::Error, "FAIL", "OK");
    append_field(&mut out, "PAYLOAD=", payload, Ghost(payload_key()));
    append_field(&mut out, "LAST_PACKET=", last_packet, Ghost(last_packet_key()));
    let fault = word_text(has_active_faults(state), "ACTIVE", "NONE");
    append_field(&mut out, "FAULT=", fault, Ghost(fault_key()));
    out
}

/// The record that the storage file is reset to: the record of the boot
/// state, with a healthy battery and no last packet.
pub fn default_record() -> (r: String)
    ensures
        r@ == record_text(crate::state::initial_state(), true, Seq::<char>::empty()),
{
    proof {
        reveal_strlit("");
    }
    write_state(&OBCState::new(), true, "")
}

/// The lines that the storage self-test appends to the storage file.
pub fn test_data_lines() -> (r: &'static str)
    ensures
        r@ == "TEST_COUNTER=1\nTEST_DATA=AA BB CC\n"@,
{
    "TEST_COUNTER=1\nTEST_DATA=AA BB CC\n"
}

/// The deliberately corrupted record that the storage self-test writes.
pub fn corrupt_record() -> (r: &'static str)
    ensures
        r@ == "MODE=GARBAGE\nBATTERY=???\nCORRUPT=FF FF FF\n"@,
{
    "MODE=GARBAGE\nBATTERY=???\nCORRUPT=FF FF FF\n"
}

/// At start-up the storage file is reset to the defaults only when it does
/// not exist.
pub fn initialise_storage(file_exists: bool) -> (r: Option<StorageCommand>)
    ensures
        r == (if file_exists { None } else { Some(StorageCommand::RestoreDefaults) }),
{
    if file_exists {
        None
    } else {
        Some(StorageCommand::RestoreDefaults)
    }
}

/// The log line that reports a storage operation's outcome. `detail` is the
/// file's contents after a successful dump, or the error after a failure.
pub open spec fn storage_outcome_line(cmd: StorageCommand, ok: bool, detail: Seq<char>) -> (
    LogLevel,
    Seq<char>,
) {
    match (cmd, ok) {
        (StorageCommand::Dump, true) => (LogLevel::Info, "STORAGE DUMP\n"@ + detail),
        (StorageCommand::Dump, false) => (LogLevel::Error, "Storage dump failed: "@ + detail),
        (StorageCommand::Clear, true) => (LogLevel::Warn, "Storage cleared"@),
        (StorageCommand::Clear, false) => (LogLevel::Error, "Storage clear failed: "@ + detail),
        (StorageCommand::WriteTestData, true) => (LogLevel::Info, "Storage test data written"@),
        (StorageCommand::WriteTestData, false) => (
            LogLevel::Error,
            "Storage test write failed: "@ + detail,
        ),
        (StorageCommand::Corrupt, true) => (LogLevel::Warn, "Storage deliberately corrupted"@),
        (StorageCommand::Corrupt, false) => (LogLevel::Error, "Storage corruption failed: "@ + detail),
        (StorageCommand::RestoreDefaults, true) => (LogLevel::Info, "Storage restored to defaults"@),
        (StorageCommand::RestoreDefaults, false) => (
            LogLevel::Error,
            "Storage restore failed: "@ + detail,
        ),
    }
}

/// Reports the outcome of a storage operation.
pub fn storage_outcome(cmd: StorageCommand, ok: bool, detail: &str) -> (r: (
    LogLevel,
    String,
))
    ensures
        (r.0, r.1@) == storage_outcome_line(cmd, ok, detail@),
{
    let (level, head, with_detail) = match (cmd, ok) {
        (StorageCommand::Dump, true) => (LogLevel::Info, "STORAGE DUMP\n", true),
        (StorageCommand::Dump, false) => (LogLevel::Error, "Storage dump failed: ", true),
        (StorageCommand::Clear, true) => (LogLevel::Warn, "Storage cleared", false),
        (StorageCommand::Clear, false) => (LogLevel::Error, "Storage clear failed: ", true),
        (StorageCommand::WriteTestData, true) => (LogLevel::Info, "Storage test data written", false),
        (StorageCommand::WriteTestData, false) => (LogLevel::Error, "Storage test write failed: ", true),
        (StorageCommand::Corrupt, true) => (LogLevel::Warn, "Storage deliberately corrupted", false),
        (StorageCommand::Corrupt, false) => (LogLevel::Error, "Storage corruption failed: ", true),
        (StorageCommand::RestoreDefaults, true) => (LogLevel::Info, "Storage restored to defaults", false),
        (StorageCommand::RestoreDefaults, false) => (LogLevel::Error, "Storage restore failed: ", true),
    };
    let mut text = String::from_str(head);
    if with_detail {
        text.append(detail);
    }
    (level, text)
}

proof fn lemma_lines_cons(l: Seq<char>, rest: Seq<char>)
    requires
        forall|j: int| 0 <= j < l.len() ==> l[j] != '\n',
    ensures
        text_lines(l + seq!['\n'] + rest) == seq![strip_cr(l)] + text_lines(rest),
{
    reveal(text_lines);
    let t = l + seq!['\n'] + rest;
    lemma_len_before(t, '\n', l.len() as int);
    assert(t.take(l.len() as int) =~= l);
    assert(t.skip(l.len() + 1int) =~= rest);
}

proof fn lemma_trim_plain(v: Seq<char>)
    requires
        forall|j: int| 0 <= j < v.len() ==> !is_whitespace(v[j]),
    ensures
        trim(v) == v,
{
    assert(trim_start(v) == v);
    assert(trim_end(v) == v);
}

proof fn lemma_trim_push_whitespace(y: Seq<char>, c: char)
    requires
        is_whitespace(c),
    ensures
        trim(y.push(c)) == trim(y),
    decreases y.len(),
{
    if y.len() == 0 {
        assert(y.push(c).drop_first() =~= y);
        assert(trim_start(y.push(c)) == trim_start(y));
    } else if is_whitespace(y[0]) {
        assert(y.push(c).drop_first() =~= y.drop_first().push(c));
        lemma_trim_push_whitespace(y.drop_first(), c);
    } else {
        assert(y.push(c).drop_last() =~= y);
    }
}

proof fn lemma_field_parts(k: Seq<char>, v: Seq<char>)
    requires
        k.len() > 0,
        forall|j: int| 0 <= j < k.len() ==> k[j] != '=' && !is_whitespace(k[j]),
    ensures
        line_key(k + seq!['='] + v) == k,
        line_value(k + seq!['='] + v) == trim(v),
{
    let l = k + seq!['='] + v;
    lemma_len_before(l, '=', k.len() as int);
    assert(l.take(k.len() as int) =~= k);
    assert(l.skip(k.len() + 1int) =~= v);
    lemma_trim_plain(k);
}

/// The state that reading back a state's storage record leaves, starting from
/// `into`: the recorded mode, radio and payload health are restored (a
/// healthy payload reads back as idle); a recorded fault-free state clears the
/// fault flags, while a recorded active fault is not a setting and leaves them.
pub open spec fn restored_state(s: OBCState, into: OBCState) -> OBCState {
    OBCState {
        mode: s.mode,
        comms: CommsState { radio_on: s.comms.radio_on, ..into.comms },
        payload: PayloadState {
            status: if s.payload.status == PayloadStatus::Error {
                PayloadStatus::Error
            } else {
                PayloadStatus::Idle
            },
            ..into.payload
        },
        faults: if any_fault(s.faults) { into.faults } else { no_faults() },
        ..into
    }
}

/// The notes that reading back a state's storage record gives.
pub open spec fn record_notes(s: OBCState, battery_ok: bool, last_packet: Seq<char>) -> Seq<
    StorageNoteView,
> {
    let lp = trim(last_packet);
    seq![
        StorageNoteView::Applied(
            if s.mode == OBCMode::Normal { Directive::ModeNormal } else { Directive::ModeSafe },
        ),
        StorageNoteView::Applied(
            if battery_ok { Directive::BatteryOk } else { Directive::BatteryFail },
        ),
        StorageNoteView::Applied(
            if s.comms.radio_on { Directive::CommsOk } else { Directive::CommsFail },
        ),
        StorageNoteView::Applied(
            if s.payload.status == PayloadStatus::Error {
                Directive::PayloadFail
            } else {
                Directive::PayloadOk
            },
        ),
    ] + (if lp.len() > 0 { seq![StorageNoteView::LastPacketObserved(lp)] } else { seq![] }) + seq![
        if any_fault(s.faults) {
            StorageNoteView::Ignored(fault_key() + seq!['='] + active_word())
        } else {
            StorageNoteView::Applied(Directive::FaultNone)
        },
    ]
}

proof fn lemma_apply_lines_push(s: OBCState, ls: Seq<Seq<char>>, l: Seq<char>)
    ensures
        apply_lines(s, Seq::<Seq<char>>::empty()) == (s, Seq::<StorageNoteView>::empty()),
        apply_lines(s, ls.push(l)) == ({
            let (s1, notes) = apply_lines(s, ls);
            let e = line_effect(l);
            (
                apply_note(s1, e),
                match e {
                    Some(n) => notes.push(n),
                    None => notes,
                },
            )
        }),
{
    reveal(apply_lines);
    assert(ls.push(l).drop_last() =~= ls);
}

/// The text of a `KEY=VALUE` line without its ending.
pub open spec fn field_body(key: Seq<char>, value: Seq<char>) -> Seq<char> {
    key + seq!['='] + value
}

/// The lines of a state's storage record.
#[verifier::opaque]
pub open spec fn record_lines(s: OBCState, battery_ok: bool, last_packet: Seq<char>) -> Seq<Seq<char>> {
    seq![
        field_body(mode_key(), if s.mode == OBCMode::Normal { normal_word() } else { safe_word() }),
        field_body(battery_key(), if battery_ok { ok_word() } else { fail_word() }),
        field_body(comms_key(), if s.comms.radio_on { ok_word() } else { fail_word() }),
        field_body(
            payload_key(),
            if s.payload.status == PayloadStatus::Error { fail_word() } else { ok_word() },
        ),
        strip_cr(field_body(last_packet_key(), last_packet)),
        field_body(fault_key(), if any_fault(s.faults) { active_word() } else { none_word() }),
    ]
}

proof fn lemma_record_lines(s: OBCState, battery_ok: bool, last_packet: Seq<char>)
    requires
        forall|j: int| 0 <= j < last_packet.len() ==> last_packet[j] != '\n',
    ensures
        text_lines(record_text(s, battery_ok, last_packet)) == record_lines(s, battery_ok, last_packet),
{
    let mw = if s.mode == OBCMode::Normal { normal_word() } else { safe_word() };
    let bw = if battery_ok { ok_word() } else { fail_word() };
    let cw = if s.comms.radio_on { ok_word() } else { fail_word() };
    let pw = if s.payload.status == PayloadStatus::Error { fail_word() } else { ok_word() };
    let fw = if any_fault(s.faults) { active_word() } else { none_word() };
    let l1 = field_body(mode_key(), mw);
    let l2 = field_body(battery_key(), bw);
    let l3 = field_body(comms_key(), cw);
    let l4 = field_body(payload_key(), pw);
    let l5 = field_body(last_packet_key(), last_packet);
    let l6 = field_body(fault_key(), fw);
    let nl = seq!['\n'];
    let e: Seq<char> = seq![];
    let text = record_text(s, battery_ok, last_packet);
    assert(text =~= l1 + nl + (l2 + nl + (l3 + nl + (l4 + nl + (l5 + nl + (l6 + nl + e))))));
    lemma_lines_cons(l6, e);
    lemma_lines_cons(l5, l6 + nl + e);
    lemma_lines_cons(l4, l5 + nl + (l6 + nl + e));
    lemma_lines_cons(l3, l4 + nl + (l5 + nl + (l6 + nl + e)));
    lemma_lines_cons(l2, l3 + nl + (l4 + nl + (l5 + nl + (l6 + nl + e))));
    lemma_lines_cons(l1, l2 + nl + (l3 + nl + (l4 + nl + (l5 + nl + (l6 + nl + e)))));
    assert(text_lines(e) == Seq::<Seq<char>>::empty()) by {
        reveal(text_lines);
    }
    assert(strip_cr(l1) == l1);
    assert(strip_cr(l2) == l2);
    assert(strip_cr(l3) == l3);
    assert(strip_cr(l4) == l4);
    assert(strip_cr(l6) == l6);
    reveal(record_lines);
    assert(text_lines(text) =~= record_lines(s, battery_ok, last_packet));
}

proof fn lemma_setting_line(k: Seq<char>, v: Seq<char>)
    requires
        k.len() > 0,
        forall|j: int| 0 <= j < k.len() ==> k[j] != '=' && !is_whitespace(k[j]),
        forall|j: int| 0 <= j < v.len() ==> !is_whitespace(v[j]),
        directive_of(k, v) is Some,
    ensures
        line_effect(field_body(k, v)) == Some(StorageNoteView::Applied(directive_of(k, v)->Some_0)),
{
    reveal(line_effect);
    lemma_field_parts(k, v);
    lemma_trim_plain(v);
}

proof fn lemma_record_line_effects(s: OBCState, battery_ok: bool, last_packet: Seq<char>)
    ensures
        line_effect(record_lines(s, battery_ok, last_packet)[0]) == Some(
            StorageNoteView::Applied(
                if s.mode == OBCMode::Normal { Directive::ModeNormal } else { Directive::ModeSafe },
            ),
        ),
        line_effect(record_lines(s, battery_ok, last_packet)[1]) == Some(
            StorageNoteView::Applied(
                if battery_ok { Directive::BatteryOk } else { Directive::BatteryFail },
            ),
        ),
        line_effect(record_lines(s, battery_ok, last_packet)[2]) == Some(
            StorageNoteView::Applied(
                if s.comms.radio_on { Directive::CommsOk } else { Directive::CommsFail },
            ),
        ),
        line_effect(record_lines(s, battery_ok, last_packet)[3]) == Some(
            StorageNoteView::Applied(
                if s.payload.status == PayloadStatus::Error {
                    Directive::PayloadFail
                } else {
                    Directive::PayloadOk
                },
            ),
        ),
{
    reveal(record_lines);
    let ls = record_lines(s, battery_ok, last_packet);
    assert(battery_key()[0] != payload_key()[0]);
    if s.mode == OBCMode::Normal {
        lemma_setting_line(mode_key(), normal_word());
    } else {
        lemma_setting_line(mode_key(), safe_word());
    }
    if battery_ok {
        lemma_setting_line(battery_key(), ok_word());
    } else {
        lemma_setting_line(battery_key(), fail_word());
    }
    if s.comms.radio_on {
        lemma_setting_line(comms_key(), ok_word());
    } else {
        lemma_setting_line(comms_key(), fail_word());
    }
    if s.payload.status == PayloadStatus::Error {
        lemma_setting_line(payload_key(), fail_word());
    } else {
        lemma_setting_line(payload_key(), ok_word());
    }
}

proof fn lemma_last_packet_line(last_packet: Seq<char>)
    ensures
        line_effect(strip_cr(field_body(last_packet_key(), last_packet))) == (if trim(
            last_packet,
        ).len() > 0 {
            Some(StorageNoteView::LastPacketObserved(trim(last_packet)))
        } else {
            None::<StorageNoteView>
        }),
{
    reveal(line_effect);
    let x5 = strip_cr(field_body(last_packet_key(), last_packet));
    if last_packet.len() > 0 && last_packet.last() == '\r' {
        assert(x5 =~= last_packet_key() + seq!['='] + last_packet.drop_last());
        assert(last_packet.drop_last().push('\r') =~= last_packet);
        lemma_trim_push_whitespace(last_packet.drop_last(), '\r');
        lemma_field_parts(last_packet_key(), last_packet.drop_last());
    } else {
        assert(x5 == field_body(last_packet_key(), last_packet));
        lemma_field_parts(last_packet_key(), last_packet);
    }
}

proof fn lemma_fault_line(active: bool)
    ensures
        line_effect(field_body(fault_key(), if active { active_word() } else { none_word() })) == (
        if active {
            Some(StorageNoteView::Ignored(fault_key() + seq!['='] + active_word()))
        } else {
            Some(StorageNoteView::Applied(Directive::FaultNone))
        }),
{
    reveal(line_effect);
    assert(comms_key()[0] != fault_key()[0]);
    if active {
        lemma_field_parts(fault_key(), active_word());
        lemma_trim_plain(active_word());
    } else {
        lemma_setting_line(fault_key(), none_word());
    }
}

proof fn lemma_record_lines_tail(s: OBCState, battery_ok: bool, last_packet: Seq<char>)
    ensures
        record_lines(s, battery_ok, last_packet).len() == 6,
        record_lines(s, battery_ok, last_packet)[4] == strip_cr(field_body(last_packet_key(), last_packet)),
        record_lines(s, battery_ok, last_packet)[5] == field_body(
            fault_key(),
            if any_fault(s.faults) { active_word() } else { none_word() },
        ),
{
    reveal(record_lines);
}

proof fn lemma_apply_step(
    s: OBCState,
    ls: Seq<Seq<char>>,
    l: Seq<char>,
    st: OBCState,
    notes: Seq<StorageNoteView>,
)
    requires
        apply_lines(s, ls) == (st, notes),
    ensures
        line_effect(l) is None ==> apply_lines(s, ls.push(l)) == (st, notes),
        line_effect(l) matches Some(n) ==> apply_lines(s, ls.push(l)) == (
            apply_note(st, Some(n)),
            notes.push(n),
        ),
{
    lemma_apply_lines_push(s, ls, l);
}

/// The settings that a state's storage record holds, in the record's order
/// (battery included; the fault line is a setting only when no fault is active).
pub open spec fn record_settings(s: OBCState, battery_ok: bool) -> Seq<Directive> {
    seq![
        if s.mode == OBCMode::Normal { Directive::ModeNormal } else { Directive::ModeSafe },
        if battery_ok { Directive::BatteryOk } else { Directive::BatteryFail },
        if s.comms.radio_on { Directive::CommsOk } else { Directive::CommsFail },
        if s.payload.status == PayloadStatus::Error { Directive::PayloadFail } else { Directive::PayloadOk },
    ]
}

proof fn lemma_settings_restore(s: OBCState, battery_ok: bool, into: OBCState)
    ensures
        ({
            let d = record_settings(s, battery_ok);
            let s4 = apply_directive(apply_directive(apply_directive(apply_directive(into, d[0]), d[1]), d[2]), d[3]);
            let last = if any_fault(s.faults) { s4 } else { apply_directive(s4, Directive::FaultNone) };
            last == restored_state(s, into)
        }),
{
}

proof fn lemma_notes_match(s: OBCState, battery_ok: bool, last_packet: Seq<char>)
    ensures
        ({
            let d = record_settings(s, battery_ok);
            let n4 = seq![
                StorageNoteView::Applied(d[0]),
                StorageNoteView::Applied(d[1]),
                StorageNoteView::Applied(d[2]),
                StorageNoteView::Applied(d[3]),
            ];
            let lp = trim(last_packet);
            let n5 = if lp.len() > 0 { n4.push(StorageNoteView::LastPacketObserved(lp)) } else { n4 };
            let n6 = if any_fault(s.faults) {
                StorageNoteView::Ignored(fault_key() + seq!['='] + active_word())
            } else {
                StorageNoteView::Applied(Directive::FaultNone)
            };
            n5.push(n6) == record_notes(s, battery_ok, last_packet)
        }),
{
    let d = record_settings(s, battery_ok);
    let n4 = seq![
        StorageNoteView::Applied(d[0]),
        StorageNoteView::Applied(d[1]),
        StorageNoteView::Applied(d[2]),
        StorageNoteView::Applied(d[3]),
    ];
    let lp = trim(last_packet);
    let n5 = if lp.len() > 0 { n4.push(StorageNoteView::LastPacketObserved(lp)) } else { n4 };
    let n6 = if any_fault(s.faults) {
        StorageNoteView::Ignored(fault_key() + seq!['='] + active_word())
    } else {
        StorageNoteView::Applied(Directive::FaultNone)
    };
    assert(n5.push(n6) =~= record_notes(s, battery_ok, last_packet));
}

/// Law: reading back the storage record written for a state restores that
/// state's mode, radio and payload health and its fault-free status, and notes
/// each recorded setting and the recorded last packet (any last packet without
/// a line break).
pub proof fn lemma_record_read_back(s: OBCState, battery_ok: bool, last_packet: Seq<char>, into: OBCState)
    requires
        forall|j: int| 0 <= j < last_packet.len() ==> last_packet[j] != '\n',
    ensures
        apply_lines(into, text_lines(record_text(s, battery_ok, last_packet))) == (
            restored_state(s, into),
            record_notes(s, battery_ok, last_packet),
        ),
{
    lemma_record_lines(s, battery_ok, last_packet);
    lemma_record_lines_tail(s, battery_ok, last_packet);
    lemma_record_line_effects(s, battery_ok, last_packet);
    lemma_last_packet_line(last_packet);
    lemma_fault_line(any_fault(s.faults));
    lemma_settings_restore(s, battery_ok, into);
    lemma_notes_match(s, battery_ok, last_packet);
    let ls = record_lines(s, battery_ok, last_packet);
    let z: Seq<Seq<char>> = seq![];
    let p1 = z.push(ls[0]);
    let p2 = p1.push(ls[1]);
    let p3 = p2.push(ls[2]);
    let p4 = p3.push(ls[3]);
    let p5 = p4.push(ls[4]);
    let p6 = p5.push(ls[5]);
    assert(ls =~= p6);
    let d = record_settings(s, battery_ok);
    let a1 = StorageNoteView::Applied(d[0]);
    let a2 = StorageNoteView::Applied(d[1]);
    let a3 = StorageNoteView::Applied(d[2]);
    let a4 = StorageNoteView::Applied(d[3]);
    let s1 = apply_directive(into, d[0]);
    let s2 = apply_directive(s1, d[1]);
    let s3 = apply_directive(s2, d[2]);
    let s4 = apply_directive(s3, d[3]);
    let n0: Seq<StorageNoteView> = seq![];
    lemma_apply_lines_push(into, z, ls[0]);
    lemma_apply_step(into, z, ls[0], into, n0);
    assert(n0.push(a1) =~= seq![a1]);
    lemma_apply_step(into, p1, ls[1], s1, n0.push(a1));
    lemma_apply_step(into, p2, ls[2], s2, n0.push(a1).push(a2));
    lemma_apply_step(into, p3, ls[3], s3, n0.push(a1).push(a2).push(a3));
    let n4 = n0.push(a1).push(a2).push(a3).push(a4);
    assert(n4 =~= seq![a1, a2, a3, a4]);
    lemma_apply_step(into, p4, ls[4], s4, n4);
    let lp = trim(last_packet);
    let n5 = if lp.len() > 0 { n4.push(StorageNoteView::LastPacketObserved(lp)) } else { n4 };
    lemma_apply_step(into, p5, ls[5], s4, n5);
}

/// Law: what each storage setting does. `MODE=NORMAL` and `MODE=SAFE` set the
/// mode; `COMMS=FAIL` and `COMMS=OK` turn the radio off and on; `PAYLOAD=FAIL`
/// puts the payload in error and `PAYLOAD=OK` makes it idle; `FAULT=NONE`
/// clears every fault flag; the battery settings leave the discrete state as
/// it is. Each setting changes only the part of the state it names.
pub proof fn lemma_setting_effects(s: OBCState)
    ensures
        directive_of(mode_key(), normal_word()) == Some(Directive::ModeNormal),
        directive_of(mode_key(), safe_word()) == Some(Directive::ModeSafe),
        directive_of(comms_key(), fail_word()) == Some(Directive::CommsFail),
        directive_of(comms_key(), ok_word()) == Some(Directive::CommsOk),
        directive_of(payload_key(), fail_word()) == Some(Directive::PayloadFail),
        directive_of(payload_key(), ok_word()) == Some(Directive::PayloadOk),
        directive_of(battery_key(), fail_word()) == Some(Directive::BatteryFail),
        directive_of(battery_key(), ok_word()) == Some(Directive::BatteryOk),
        directive_of(fault_key(), none_word()) == Some(Directive::FaultNone),
        apply_directive(s, Directive::ModeNormal) == (OBCState { mode: OBCMode::Normal, ..s }),
        apply_directive(s, Directive::ModeSafe) == (OBCState { mode: OBCMode::Safe, ..s }),
        apply_directive(s, Directive::CommsFail) == (OBCState {
            comms: CommsState { radio_on: false, ..s.comms },
            ..s
        }),
        apply_directive(s, Directive::CommsOk) == (OBCState {
            comms: CommsState { radio_on: true, ..s.comms },
            ..s
        }),
        apply_directive(s, Directive::PayloadFail) == (OBCState {
            payload: PayloadState { status: PayloadStatus::Error, ..s.payload },
            ..s
        }),
        apply_directive(s, Directive::PayloadOk) == (OBCState {
            payload: PayloadState { status: PayloadStatus::Idle, ..s.payload },
            ..s
        }),
        !any_fault(apply_directive(s, Directive::FaultNone).faults),
        apply_directive(s, Directive::FaultNone) == (OBCState { faults: apply_directive(s, Directive::FaultNone).faults, ..s }),
        apply_directive(s, Directive::BatteryFail) == s,
        apply_directive(s, Directive::BatteryOk) == s,
{
}

} // verus!
