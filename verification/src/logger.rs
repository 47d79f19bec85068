use vstd::prelude::*;

use crate::text::{contains_word, has_word, split_lines, text_lines};

verus! {

/// The stamp used when an instant has no local calendar time.
pub open spec fn epoch_stamp() -> Seq<char> {
    "01/01/1970_00:00:00"@
}

/// The shape of a local time stamp `dd/mm/<year>_HH:MM:SS`: two-digit day and
/// month first, two-digit hour, minute and second last.
pub open spec fn stamp_shaped(t: Seq<char>) -> bool {
    &&& t.len() >= 19
    &&& t[2] == '/'
    &&& t[5] == '/'
    &&& t[t.len() - 9] == '_'
    &&& t[t.len() - 6] == ':'
    &&& t[t.len() - 3] == ':'
}

/// The format of a log time stamp: day/month/year, then hour:minute:second.
pub open spec fn stamp_format() -> Seq<char> {
    "%d/%m/%Y_%H:%M:%S"@
}

/// What chrono writes for the instant `utc_millis` (milliseconds since the
/// Unix epoch) seen at `offset_secs` seconds east of UTC, with the strftime
/// format `fmt`; none when the instant is out of chrono's range or the offset
/// is not within a day. A function of its arguments alone.
pub uninterp spec fn chrono_format(utc_millis: i64, offset_secs: i32, fmt: Seq<char>) -> Option<
    Seq<char>,
>;

/// The instants (milliseconds since the Unix epoch) up to the end of the year
/// 9999: well inside the range of dates that chrono can hold.
pub open spec fn in_chrono_range(ts_millis: u64) -> bool {
    ts_millis <= 253_402_300_799_999
}

/// chrono: `DateTime::<Utc>::from_timestamp_millis(utc_millis)`, moved to
/// `FixedOffset::east_opt(offset_secs)` with `with_timezone`, then
/// `format(fmt)` written out as a `String`, for the log stamp format only (a
/// malformed format would make `to_string` panic). Claimed: the result is
/// `chrono_format` of the arguments; a text has the shape that format gives
/// (`stamp_shaped`: `%d`, `%m`, `%H`, `%M`, `%S` are two zero-padded digits,
/// `%Y` at least four characters); there is a text whenever the offset is
/// within a day (`east_opt`'s bound) and the instant is from the epoch to the
/// end of the year 9999 (where `from_timestamp_millis` succeeds).
#[verifier::external_body]
fn civil_text(utc_millis: i64, offset_secs: i32, fmt: &str) -> (r: Option<String>)
    requires
        fmt@ == stamp_format(),
    ensures
        match r {
            Some(t) => chrono_format(utc_millis, offset_secs, fmt@) == Some(t@),
            None => chrono_format(utc_millis, offset_secs, fmt@) is None,
        },
        r matches Some(t) ==> stamp_shaped(t@),
        -86_400 < offset_secs < 86_400 && 0 <= utc_millis <= 253_402_300_799_999 ==> r is Some,
{
    let offset = chrono::FixedOffset::east_opt(offset_secs)?;
    let utc = chrono::DateTime::<chrono::Utc>::from_timestamp_millis(utc_millis)?;
    Some(utc.with_timezone(&offset).format(fmt).to_string())
}

/// chrono: the machine's local offset from UTC, in seconds, at the instant
/// `utc_millis` (`DateTime::<Utc>::from_timestamp_millis`, then
/// `Local.offset_from_utc_datetime(..).local_minus_utc()`); none only when the
/// instant is out of chrono's range. Claimed: an offset is less than a day, as
/// every chrono `FixedOffset` is; there is one for every instant from the
/// epoch to the end of the year 9999. Not claimed: which offset, as it depends
/// on the machine's time zone.
#[verifier::external_body]
fn local_offset_secs(utc_millis: i64) -> (r: Option<i32>)
    ensures
        valid_offset(r),
        0 <= utc_millis <= 253_402_300_799_999 ==> r is Some,
{
    let utc = chrono::DateTime::<chrono::Utc>::from_timestamp_millis(utc_millis)?;
    Some(chrono::TimeZone::offset_from_utc_datetime(&chrono::Local, &utc.naive_utc()).local_minus_utc())
}

/// A local offset as chrono reports it: absent, or less than a day.
pub open spec fn valid_offset(o: Option<i32>) -> bool {
    o matches Some(v) ==> -86_400 < v < 86_400
}

/// The log stamp of an instant seen at a local offset: chrono's text in the
/// stamp format, or the epoch stamp when there is no offset or no text.
pub open spec fn local_stamp(utc_millis: i64, offset: Option<i32>) -> Seq<char> {
    match offset {
        Some(o) => match chrono_format(utc_millis, o, stamp_format()) {
            Some(t) => t,
            None => epoch_stamp(),
        },
        None => epoch_stamp(),
    }
}

/// The stamp for a formatted local time: the text itself, or the epoch stamp
/// when there is no local time.
pub fn stamp_or_epoch(local: Option<String>) -> (r: String)
    ensures
        r@ == (match local {
            Some(t) => t@,
            None => epoch_stamp(),
        }),
{
    match local {
        Some(t) => t,
        None => String::from_str("01/01/1970_00:00:00"),
    }
}

/// The log stamp of `ts_millis` (instants beyond `i64::MAX` wrap around, as a
/// cast does) seen at the local offset `offset`.
pub fn stamp_for_offset(ts_millis: u64, offset: Option<i32>) -> (r: String)
    ensures
        r@ == local_stamp(ts_millis as i64, offset),
        r@ == epoch_stamp() || stamp_shaped(r@),
        offset matches Some(v) ==> (-86_400 < v < 86_400 && in_chrono_range(ts_millis)
            ==> chrono_format(ts_millis as i64, v, stamp_format()) is Some),
{
    match offset {
        Some(o) => stamp_or_epoch(civil_text(ts_millis as i64, o, "%d/%m/%Y_%H:%M:%S")),
        None => String::from_str("01/01/1970_00:00:00"),
    }
}

/// Whether `stamp` is the log stamp of `ts_millis` at some local offset that
/// chrono can report.
pub open spec fn is_stamp_of(stamp: Seq<char>, ts_millis: u64) -> bool {
    exists|o: Option<i32>| valid_offset(o) && stamp == #[trigger] local_stamp(ts_millis as i64, o)
}

/// Whether `stamp` is chrono's text of the instant `ts_millis` in the stamp
/// format, seen at some offset within a day: a local time of that instant.
pub open spec fn is_local_time_of(stamp: Seq<char>, ts_millis: u64) -> bool {
    exists|o: i32|
        -86_400 < o < 86_400 && #[trigger] chrono_format(ts_millis as i64, o, stamp_format()) == Some(
            stamp,
        )
}

/// The local time stamp of an instant in milliseconds since the Unix epoch:
/// its stamp at the local offset that chrono reports for it, which for every
/// instant up to the end of the year 9999 is a local time of that instant.
pub fn format_timestamp(ts_millis: u64) -> (r: String)
    ensures
        is_stamp_of(r@, ts_millis),
        in_chrono_range(ts_millis) ==> is_local_time_of(r@, ts_millis),
        r@ == epoch_stamp() || stamp_shaped(r@),
{
    let offset = local_offset_secs(ts_millis as i64);
    let r = stamp_for_offset(ts_millis, offset);
    assert(valid_offset(offset) && r@ == local_stamp(ts_millis as i64, offset));
    proof {
        if in_chrono_range(ts_millis) {
            let v = offset->0;
            assert(chrono_format(ts_millis as i64, v, stamp_format()) is Some);
            assert(is_local_time_of(r@, ts_millis));
        }
    }
    r
}

/// A log file line: `[stamp] [LEVEL] message`.
pub open spec fn stamped_line(stamp: Seq<char>, level: Seq<char>, message: Seq<char>) -> Seq<char> {
    "["@ + stamp + "] ["@ + level + "] "@ + message
}

/// A console log line: `[LEVEL] message`.
pub open spec fn console_line(level: Seq<char>, message: Seq<char>) -> Seq<char> {
    "["@ + level + "] "@ + message
}

/// Builds a log file line from its stamp, level and message.
pub fn log_line(stamp: &str, level: &str, message: &str) -> (r: String)
    ensures
        r@ == stamped_line(stamp@, level@, message@),
{
    let mut line = String::from_str("[");
    line.append(stamp);
    line.append("] [");
    line.append(level);
    line.append("] ");
    line.append(message);
    line
}

/// The log file line for `message` at `level`, stamped with `ts_millis` seen
/// at the local offset `offset`.
pub open spec fn log_line_at(ts_millis: u64, offset: Option<i32>, level: Seq<char>, message: Seq<char>) -> Seq<char> {
    stamped_line(local_stamp(ts_millis as i64, offset), level, message)
}

/// Whether `line` is the log file line for `message` at `level`, stamped with
/// `ts_millis` at the local offset that chrono reports for it.
pub open spec fn is_log_line(line: Seq<char>, ts_millis: u64, level: Seq<char>, message: Seq<char>) -> bool {
    exists|o: Option<i32>| valid_offset(o) && line == #[trigger] log_line_at(ts_millis, o, level, message)
}

/// The log file line for `message` at `level`, stamped with `ts_millis` seen at
/// the local offset `offset`.
pub fn log_with_offset(level: &str, message: &str, ts_millis: u64, offset: Option<i32>) -> (r: String)
    ensures
        r@ == log_line_at(ts_millis, offset, level@, message@),
        offset matches Some(v) ==> (-86_400 < v < 86_400 && in_chrono_range(ts_millis)
            ==> chrono_format(ts_millis as i64, v, stamp_format()) is Some),
{
    let stamp = stamp_for_offset(ts_millis, offset);
    log_line(stamp.as_str(), level, message)
}

/// Whether `line` is the log file line for `message` at `level`, stamped with
/// a local time of the instant `ts_millis`.
pub open spec fn is_local_log_line(line: Seq<char>, ts_millis: u64, level: Seq<char>, message: Seq<char>) -> bool {
    exists|stamp: Seq<char>|
        is_local_time_of(stamp, ts_millis) && line == #[trigger] stamped_line(stamp, level, message)
}

/// The log file line for `message` at `level`, stamped with `ts_millis` at the
/// local offset that chrono reports for it.
fn stamped_log_line(level: &str, message: &str, ts_millis: u64) -> (r: String)
    ensures
        is_log_line(r@, ts_millis, level@, message@),
        in_chrono_range(ts_millis) ==> is_local_log_line(r@, ts_millis, level@, message@),
{
    let offset = local_offset_secs(ts_millis as i64);
    let line = log_with_offset(level, message, ts_millis, offset);
    assert(valid_offset(offset) && line@ == log_line_at(ts_millis, offset, level@, message@));
    proof {
        if in_chrono_range(ts_millis) {
            let v = offset->0;
            let t = chrono_format(ts_millis as i64, v, stamp_format())->0;
            assert(is_local_time_of(t, ts_millis));
            assert(line@ == stamped_line(t, level@, message@));
        }
    }
    line
}

/// The log file line for a message at the current time `now_millis`.
pub fn log(level: &str, message: &str, now_millis: u64) -> (r: String)
    ensures
        is_log_line(r@, now_millis, level@, message@),
        in_chrono_range(now_millis) ==> is_local_log_line(r@, now_millis, level@, message@),
{
    stamped_log_line(level, message, now_millis)
}

/// The log file line for a message that goes to the log file only: the line
/// that `log` writes.
pub fn log_file_only(level: &str, message: &str, now_millis: u64) -> (r: String)
    ensures
        is_log_line(r@, now_millis, level@, message@),
        in_chrono_range(now_millis) ==> is_local_log_line(r@, now_millis, level@, message@),
{
    log(level, message, now_millis)
}

/// The two lines of a message logged at a given time: the console line and
/// the log file line.
pub struct LogLines {
    pub console: String,
    pub file: String,
}

/// The console and log file lines for a message stamped with `ts_millis`.
pub fn log_at(level: &str, message: &str, ts_millis: u64) -> (r: LogLines)
    ensures
        r.console@ == console_line(level@, message@),
        is_log_line(r.file@, ts_millis, level@, message@),
        in_chrono_range(ts_millis) ==> is_local_log_line(r.file@, ts_millis, level@, message@),
{
    let file = stamped_log_line(level, message, ts_millis);
    let mut console = String::from_str("[");
    console.append(level);
    console.append("] ");
    console.append(message);
    LogLines { console, file }
}

/// Law: a log file line is fixed by its time, the local offset chrono reports,
/// its level and its message. So whenever chrono reports the same offset,
/// `log_file_only` writes exactly what `log` writes, and the level helpers
/// (`info`, `warn`, `error`, `info_file_only` and the `_at` forms) write
/// exactly what `log` or `log_at` write with their level; and a line that
/// `log` writes at a time is a line that `log_file_only` may write then.
pub proof fn lemma_log_line_fixed_by_time_and_offset(
    line: Seq<char>,
    other: Seq<char>,
    ts_millis: u64,
    offset: Option<i32>,
    level: Seq<char>,
    message: Seq<char>,
)
    requires
        valid_offset(offset),
        line == log_line_at(ts_millis, offset, level, message),
        other == log_line_at(ts_millis, offset, level, message),
    ensures
        line == other,
        is_log_line(line, ts_millis, level, message),
        line == stamped_line(local_stamp(ts_millis as i64, offset), level, message),
{
}

pub fn info(message: &str, now_millis: u64) -> (r: String)
    ensures
        is_log_line(r@, now_millis, "INFO"@, message@),
        in_chrono_range(now_millis) ==> is_local_log_line(r@, now_millis, "INFO"@, message@),
{
    log("INFO", message, now_millis)
}

pub fn info_at(message: &str, ts_millis: u64) -> (r: LogLines)
    ensures
        r.console@ == console_line("INFO"@, message@),
        is_log_line(r.file@, ts_millis, "INFO"@, message@),
        in_chrono_range(ts_millis) ==> is_local_log_line(r.file@, ts_millis, "INFO"@, message@),
{
    log_at("INFO", message, ts_millis)
}

pub fn info_file_only(message: &str, now_millis: u64) -> (r: String)
    ensures
        is_log_line(r@, now_millis, "INFO"@, message@),
        in_chrono_range(now_millis) ==> is_local_log_line(r@, now_millis, "INFO"@, message@),
{
    log_file_only("INFO", message, now_millis)
}

pub fn warn(message: &str, now_millis: u64) -> (r: String)
    ensures
        is_log_line(r@, now_millis, "WARN"@, message@),
        in_chrono_range(now_millis) ==> is_local_log_line(r@, now_millis, "WARN"@, message@),
{
    log("WARN", message, now_millis)
}

pub fn warn_at(message: &str, ts_millis: u64) -> (r: LogLines)
    ensures
        r.console@ == console_line("WARN"@, message@),
        is_log_line(r.file@, ts_millis, "WARN"@, message@),
        in_chrono_range(ts_millis) ==> is_local_log_line(r.file@, ts_millis, "WARN"@, message@),
{
    log_at("WARN", message, ts_millis)
}

pub fn error(message: &str, now_millis: u64) -> (r: String)
    ensures
        is_log_line(r@, now_millis, "ERROR"@, message@),
        in_chrono_range(now_millis) ==> is_local_log_line(r@, now_millis, "ERROR"@, message@),
{
    log("ERROR", message, now_millis)
}

pub fn error_at(message: &str, ts_millis: u64) -> (r: LogLines)
    ensures
        r.console@ == console_line("ERROR"@, message@),
        is_log_line(r.file@, ts_millis, "ERROR"@, message@),
        in_chrono_range(ts_millis) ==> is_local_log_line(r.file@, ts_millis, "ERROR"@, message@),
{
    log_at("ERROR", message, ts_millis)
}

/// Whether a log line reports a warning or an error.
pub open spec fn is_alert(l: Seq<char>) -> bool {
    contains_word(l, seq!['[', 'E', 'R', 'R', 'O', 'R', ']']) || contains_word(
        l,
        seq!['[', 'W', 'A', 'R', 'N', ']'],
    )
}

/// The warning and error lines among `ls`, in order.
pub open spec fn alert_lines(ls: Seq<Seq<char>>) -> Seq<Seq<char>>
    decreases ls.len(),
{
    if ls.len() == 0 {
        seq![]
    } else if is_alert(ls.last()) {
        alert_lines(ls.drop_last()).push(ls.last())
    } else {
        alert_lines(ls.drop_last())
    }
}

/// The warning and error lines of the log file's contents, in order, as the
/// error dump holds them.
pub fn error_log_lines(logs: &[char]) -> (r: Vec<Vec<char>>)
    ensures
        r@.map_values(|l: Vec<char>| l@) == alert_lines(text_lines(logs@)),
{
    let lines = split_lines(logs);
    let ghost ls = text_lines(logs@);
    let error_tag = ['[', 'E', 'R', 'R', 'O', 'R', ']'];
    let warn_tag = ['[', 'W', 'A', 'R', 'N', ']'];
    let mut out: Vec<Vec<char>> = Vec::new();
    let mut i: usize = 0;
    assert(ls.take(0) =~= Seq::<Seq<char>>::empty());
    while i < lines.len()
        invariant
            i <= lines@.len(),
            lines@.map_values(|l: Vec<char>| l@) == ls,
            ls.len() == lines@.len(),
            error_tag@ == seq!['[', 'E', 'R', 'R', 'O', 'R', ']'],
            warn_tag@ == seq!['[', 'W', 'A', 'R', 'N', ']'],
            out@.map_values(|l: Vec<char>| l@) == alert_lines(ls.take(i as int)),
        decreases lines@.len() - i,
    {
        assert(ls[i as int] == lines@[i as int]@);
        assert(ls.take(i + 1).drop_last() =~= ls.take(i as int));
        let line = lines[i].as_slice();
        if has_word(line, &error_tag) || has_word(line, &warn_tag) {
            let ghost before = out@.map_values(|l: Vec<char>| l@);
            out.push(copy_line(line));
            assert(out@.map_values(|l: Vec<char>| l@) =~= before.push(ls[i as int]));
        }
        i = i + 1;
    }
    assert(ls.take(i as int) =~= ls);
    out
}

fn copy_line(l: &[char]) -> (r: Vec<char>)
    ensures
        r@ == l@,
{
    let r = crate::text::copy_range(l, 0, l.len());
    assert(r@ =~= l@);
    r
}

/// Law: the error dump keeps exactly the lines tagged `[ERROR]` or `[WARN]`:
/// every line it keeps is a line of the log that carries one of the two tags,
/// every such line of the log is kept, and it never holds more lines than the
/// log.
pub proof fn lemma_error_dump_selection(ls: Seq<Seq<char>>)
    ensures
        forall|i: int|
            0 <= i < alert_lines(ls).len() ==> (contains_word(
                #[trigger] alert_lines(ls)[i],
                seq!['[', 'E', 'R', 'R', 'O', 'R', ']'],
            ) || contains_word(alert_lines(ls)[i], seq!['[', 'W', 'A', 'R', 'N', ']']))
                && ls.contains(alert_lines(ls)[i]),
        forall|j: int|
            0 <= j < ls.len() && (contains_word(#[trigger] ls[j], seq!['[', 'E', 'R', 'R', 'O', 'R', ']'])
                || contains_word(ls[j], seq!['[', 'W', 'A', 'R', 'N', ']'])) ==> alert_lines(ls).contains(
                ls[j],
            ),
        alert_lines(ls).len() <= ls.len(),
    decreases ls.len(),
{
    if ls.len() > 0 {
        let p = ls.drop_last();
        lemma_error_dump_selection(p);
        let a = alert_lines(ls);
        let ap = alert_lines(p);
        assert forall|i: int| 0 <= i < a.len() implies (contains_word(
            #[trigger] a[i],
            seq!['[', 'E', 'R', 'R', 'O', 'R', ']'],
        ) || contains_word(a[i], seq!['[', 'W', 'A', 'R', 'N', ']'])) && ls.contains(a[i]) by {
            if i < ap.len() {
                assert(a[i] == ap[i]);
                let k = choose|k: int| 0 <= k < p.len() && p[k] == ap[i];
                assert(ls[k] == p[k]);
            } else {
                assert(a[i] == ls.last());
                assert(ls[ls.len() - 1] == ls.last());
            }
        }
        assert forall|j: int|
            0 <= j < ls.len() && (contains_word(#[trigger] ls[j], seq!['[', 'E', 'R', 'R', 'O', 'R', ']'])
                || contains_word(ls[j], seq!['[', 'W', 'A', 'R', 'N', ']'])) implies a.contains(ls[j]) by {
            if j < p.len() {
                assert(p[j] == ls[j]);
                let k = choose|k: int| 0 <= k < ap.len() && ap[k] == p[j];
                assert(a[k] == ap[k]);
            } else {
                assert(ls[j] == ls.last());
                assert(a[a.len() - 1] == ls.last());
            }
        }
    }
}

} // verus!
