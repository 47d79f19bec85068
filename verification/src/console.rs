use vstd::prelude::*;

use crate::errors::PacketError;
use crate::packet::Packet;
use crate::parser::{packet_verdict, parse_packet};
use crate::text::{char_is_whitespace, copy_range, is_whitespace, trim, trim_range};

verus! {

/// The number of leading characters of `s` that are not whitespace.
pub open spec fn word_len(s: Seq<char>) -> nat
    decreases s.len(),
{
    if s.len() == 0 || is_whitespace(s[0]) {
        0
    } else {
        1 + word_len(s.drop_first())
    }
}

pub proof fn lemma_word_len_bound(s: Seq<char>)
    ensures
        word_len(s) <= s.len(),
        s.len() > 0 && !is_whitespace(s[0]) ==> word_len(s) >= 1,
    decreases s.len(),
{
    if s.len() > 0 && !is_whitespace(s[0]) {
        lemma_word_len_bound(s.drop_first());
    }
}

/// The whitespace-separated words of `s`, in order.
pub open spec fn words(s: Seq<char>) -> Seq<Seq<char>>
    decreases s.len(),
{
    if s.len() == 0 {
        seq![]
    } else if is_whitespace(s[0]) {
        words(s.drop_first())
    } else {
        let k = word_len(s);
        proof {
            lemma_word_len_bound(s);
        }
        seq![s.take(k as int)] + words(s.skip(k as int))
    }
}

/// The value of a hexadecimal digit.
pub open spec fn hex_digit(c: char) -> Option<int> {
    if '0' <= c <= '9' {
        Some(c as int - '0' as int)
    } else if 'a' <= c <= 'f' {
        Some(c as int - 'a' as int + 10)
    } else if 'A' <= c <= 'F' {
        Some(c as int - 'A' as int + 10)
    } else {
        None
    }
}

/// Whether every character of `d` is a hexadecimal digit.
pub open spec fn all_hex(d: Seq<char>) -> bool {
    forall|i: int| 0 <= i < d.len() ==> hex_digit(#[trigger] d[i]) is Some
}

/// The number that the hexadecimal digits `d` denote.
pub open spec fn hex_number(d: Seq<char>) -> int
    decreases d.len(),
{
    if d.len() == 0 {
        0
    } else {
        hex_number(d.drop_last()) * 16 + hex_digit(d.last())->Some_0
    }
}

/// The byte that a console token denotes: an optional `+`, then one or more
/// hexadecimal digits whose value is at most 0xFF.
pub open spec fn hex_byte(tok: Seq<char>) -> Option<u8> {
    let d = if tok.len() > 0 && tok[0] == '+' { tok.drop_first() } else { tok };
    if d.len() > 0 && all_hex(d) && hex_number(d) <= 0xFF {
        Some(hex_number(d) as u8)
    } else {
        None
    }
}

/// What an operator's console line is.
pub enum ConsoleInput {
    /// Nothing but whitespace.
    Blank,
    /// Hexadecimal bytes separated by whitespace.
    Bytes(Vec<u8>),
    /// Some word is not a hexadecimal byte.
    Rejected,
}

pub enum ConsoleInputView {
    Blank,
    Bytes(Seq<u8>),
    Rejected,
}

impl View for ConsoleInput {
    type V = ConsoleInputView;

    open spec fn view(&self) -> ConsoleInputView {
        match self {
            ConsoleInput::Blank => ConsoleInputView::Blank,
            ConsoleInput::Bytes(b) => ConsoleInputView::Bytes(b@),
            ConsoleInput::Rejected => ConsoleInputView::Rejected,
        }
    }
}

/// The reading of a console line: blank when it has no words; the bytes that
/// its words denote when each word is a hexadecimal byte; rejected otherwise.
pub open spec fn console_reading(line: Seq<char>) -> ConsoleInputView {
    let ws = words(line);
    if ws.len() == 0 {
        ConsoleInputView::Blank
    } else if forall|i: int| 0 <= i < ws.len() ==> hex_byte(#[trigger] ws[i]) is Some {
        ConsoleInputView::Bytes(ws.map_values(|w: Seq<char>| hex_byte(w)->Some_0))
    } else {
        ConsoleInputView::Rejected
    }
}

proof fn lemma_hex_number_grows(d: Seq<char>, k: int)
    requires
        0 <= k <= d.len(),
        all_hex(d),
    ensures
        hex_number(d.take(k)) <= hex_number(d),
        hex_number(d) >= 0,
    decreases d.len(),
{
    if d.len() > 0 {
        let p = d.drop_last();
        assert(all_hex(p)) by {
            assert forall|i: int| 0 <= i < p.len() implies hex_digit(#[trigger] p[i]) is Some by {
                assert(p[i] == d[i]);
            }
        }
        assert(hex_digit(d[d.len() - 1]) is Some);
        if k == d.len() {
            assert(d.take(k) =~= d);
            lemma_hex_number_grows(p, 0);
        } else {
            assert(d.take(k) =~= p.take(k));
            lemma_hex_number_grows(p, k);
        }
    } else {
        assert(d.take(k) =~= d);
    }
}

fn hex_digit_value(c: char) -> (r: Option<u32>)
    ensures
        match r {
            Some(v) => hex_digit(c) == Some(v as int) && v < 16,
            None => hex_digit(c) is None,
        },
{
    if '0' <= c && c <= '9' {
        Some((c as u32) - ('0' as u32))
    } else if 'a' <= c && c <= 'f' {
        Some((c as u32) - ('a' as u32) + 10)
    } else if 'A' <= c && c <= 'F' {
        Some((c as u32) - ('A' as u32) + 10)
    } else {
        None
    }
}

/// Reads `line[from..to]` as a hexadecimal byte.
fn parse_hex_byte(line: &[char], from: usize, to: usize) -> (r: Option<u8>)
    requires
        from <= to <= line@.len(),
    ensures
        r == hex_byte(line@.subrange(from as int, to as int)),
{
    let ghost tok = line@.subrange(from as int, to as int);
    let mut i = from;
    if i < to && line[i] == '+' {
        i = i + 1;
    }
    let ghost d = line@.subrange(i as int, to as int);
    assert(d == (if tok.len() > 0 && tok[0] == '+' { tok.drop_first() } else { tok }));
    if i == to {
        return None;
    }
    let start = i;
    let mut acc: u32 = 0;
    while i < to
        invariant
            from <= start <= i <= to <= line@.len(),
            tok == line@.subrange(from as int, to as int),
            d == (if tok.len() > 0 && tok[0] == '+' { tok.drop_first() } else { tok }),
            d.len() > 0,
            d == line@.subrange(start as int, to as int),
            all_hex(line@.subrange(start as int, i as int)),
            acc as int == hex_number(line@.subrange(start as int, i as int)),
            acc <= 0xFF,
        decreases to - i,
    {
        let ghost pre = line@.subrange(start as int, i as int);
        let ghost next = line@.subrange(start as int, i + 1);
        assert(next.drop_last() =~= pre);
        assert(next.last() == line@[i as int]);
        match hex_digit_value(line[i]) {
            None => {
                assert(d[i - start] == line@[i as int]);
                assert(!all_hex(d));
                return None;
            },
            Some(v) => {
                acc = acc * 16 + v;
                assert(all_hex(next)) by {
                    assert forall|j: int| 0 <= j < next.len() implies hex_digit(#[trigger] next[j]) is Some by {
                        if j < pre.len() {
                            assert(next[j] == pre[j]);
                        }
                    }
                }
                if acc > 0xFF {
                    proof {
                        if all_hex(d) {
                            assert(d.take(i + 1 - start) =~= next);
                            lemma_hex_number_grows(d, i + 1 - start);
                        }
                    }
                    return None;
                }
            },
        }
        i = i + 1;
    }
    assert(line@.subrange(start as int, i as int) =~= d);
    Some(acc as u8)
}

proof fn lemma_words_skip_space(s: Seq<char>, i: int)
    requires
        0 <= i < s.len(),
        is_whitespace(s[i]),
    ensures
        words(s.skip(i)) == words(s.skip(i + 1)),
{
    assert(s.skip(i).drop_first() =~= s.skip(i + 1));
}

proof fn lemma_word_len(t: Seq<char>, k: int)
    requires
        0 <= k <= t.len(),
        forall|j: int| 0 <= j < k ==> !is_whitespace(t[j]),
        k == t.len() || is_whitespace(t[k]),
    ensures
        word_len(t) == k,
    decreases k,
{
    if k > 0 {
        lemma_word_len(t.drop_first(), k - 1);
    }
}

/// Reads an operator's console line.
pub fn parse_console_line(line: &[char]) -> (r: ConsoleInput)
    ensures
        r@ == console_reading(line@),
{
    let n = line.len();
    let mut bytes: Vec<u8> = Vec::new();
    let mut all_ok = true;
    let mut count: usize = 0;
    let ghost mut found: Seq<Seq<char>> = seq![];
    let mut i: usize = 0;
    assert(line@.skip(0) =~= line@);
    while i < n
        invariant
            n == line@.len(),
            i <= n,
            words(line@) == found + words(line@.skip(i as int)),
            count == found.len(),
            count <= i,
            all_ok == (forall|j: int| 0 <= j < found.len() ==> hex_byte(#[trigger] found[j]) is Some),
            all_ok ==> bytes@ == found.map_values(|w: Seq<char>| hex_byte(w)->Some_0),
        decreases n - i,
    {
        if char_is_whitespace(line[i]) {
            proof {
                lemma_words_skip_space(line@, i as int);
            }
            i = i + 1;
        } else {
            let start = i;
            while i < n && !char_is_whitespace(line[i])
                invariant
                    n == line@.len(),
                    start <= i <= n,
                    forall|j: int| start <= j < i ==> !is_whitespace(line@[j]),
                decreases n - i,
            {
                i = i + 1;
            }
            let ghost rest = line@.skip(start as int);
            let ghost w = line@.subrange(start as int, i as int);
            proof {
                lemma_word_len(rest, (i - start) as int);
                assert(rest.take((i - start) as int) =~= w);
                assert(rest.skip((i - start) as int) =~= line@.skip(i as int));
                assert(found + (seq![w] + words(line@.skip(i as int))) =~= found.push(w) + words(
                    line@.skip(i as int),
                ));
            }
            let b = parse_hex_byte(line, start, i);
            let ghost before = found;
            proof {
                found = found.push(w);
            }
            match b {
                Some(v) => {
                    if all_ok {
                        bytes.push(v);
                        assert(bytes@ =~= found.map_values(|w: Seq<char>| hex_byte(w)->Some_0));
                    }
                },
                None => {
                    all_ok = false;
                },
            }
            assert(forall|j: int| 0 <= j < before.len() ==> found[j] == before[j]);
            assert(found[before.len() as int] == w);
            assert(all_ok == (forall|j: int| 0 <= j < found.len() ==> hex_byte(#[trigger] found[j]) is Some)) by {
                if all_ok {
                    assert forall|j: int| 0 <= j < found.len() implies hex_byte(#[trigger] found[j]) is Some by {
                        if j < before.len() {
                            assert(hex_byte(before[j]) is Some);
                        }
                    }
                } else if b is Some {
                    let j = choose|j: int| 0 <= j < before.len() && !(hex_byte(#[trigger] before[j]) is Some);
                    assert(!(hex_byte(found[j]) is Some));
                } else {
                    assert(!(hex_byte(found[before.len() as int]) is Some));
                }
            }
            count = count + 1;
        }
    }
    assert(line@.skip(n as int) =~= Seq::<char>::empty());
    assert(words(Seq::<char>::empty()) =~= Seq::<Seq<char>>::empty());
    assert(found + Seq::<Seq<char>>::empty() =~= found);
    if count == 0 {
        ConsoleInput::Blank
    } else if all_ok {
        ConsoleInput::Bytes(bytes)
    } else {
        ConsoleInput::Rejected
    }
}

/// What the runtime makes of an operator's console line.
pub enum LineOutcome {
    /// Nothing but whitespace.
    Blank,
    /// Some word is not a hexadecimal byte.
    NotHex,
    /// The bytes do not form a valid packet.
    Refused(PacketError),
    /// A valid packet, with the trimmed line that carried it.
    Accepted(Packet, Vec<char>),
}

/// Reads a console line as an uplinked packet with sequence number `seq`,
/// stamped with `timestamp`.
pub fn read_command_line(line: &[char], seq: u32, timestamp: u64) -> (r: LineOutcome)
    ensures
        match console_reading(line@) {
            ConsoleInputView::Blank => r is Blank,
            ConsoleInputView::Rejected => r is NotHex,
            ConsoleInputView::Bytes(b) => match packet_verdict(b) {
                Ok(t) => match r {
                    LineOutcome::Accepted(p, text) => {
                        &&& p@.tlvs == seq![t]
                        &&& p@.seq == seq
                        &&& p@.timestamp == timestamp
                        &&& text@ == trim(line@)
                    },
                    _ => false,
                },
                Err(e) => r == LineOutcome::Refused(e),
            },
        },
{
    match parse_console_line(line) {
        ConsoleInput::Blank => LineOutcome::Blank,
        ConsoleInput::Rejected => LineOutcome::NotHex,
        ConsoleInput::Bytes(bytes) => match parse_packet(bytes.as_slice(), seq, timestamp) {
            Ok(p) => {
                assert(p@.tlvs =~= seq![p@.tlvs[0]]);
                let (a, b) = trim_range(line, 0, line.len());
                assert(line@.subrange(0, line@.len() as int) =~= line@);
                LineOutcome::Accepted(p, copy_range(line, a, b))
            },
            Err(e) => LineOutcome::Refused(e),
        },
    }
}

/// The sequence number after a console line: it advances, wrapping around,
/// after every line of hexadecimal bytes, accepted as a packet or not.
pub fn sequence_after(seq: u32, outcome: &LineOutcome) -> (r: u32)
    ensures
        r == (match outcome {
            LineOutcome::Refused(_) | LineOutcome::Accepted(_, _) => if seq == u32::MAX {
                0
            } else {
                (seq + 1) as u32
            },
            _ => seq,
        }),
{
    match outcome {
        LineOutcome::Refused(_) | LineOutcome::Accepted(_, _) => seq.wrapping_add(1),
        _ => seq,
    }
}

/// What one wait for console input brought the runtime loop.
pub enum WaitEvent {
    /// No line came within the tick.
    Quiet,
    /// The console input has closed.
    Closed,
    /// A line of nothing but whitespace.
    Blank,
    /// A line with a word that is not a hexadecimal byte.
    NotHex,
    /// A line of bytes that do not form a valid packet.
    Refused,
    /// A valid packet, handled; whether the runtime is still running after it.
    Handled(bool),
}

/// What the runtime loop does next.
pub enum LoopStep {
    /// Write the state to storage, then go on to the next tick.
    SaveAndContinue,
    /// Go on to the next tick without writing the state.
    Continue,
    /// End the runtime.
    Stop,
}

/// The runtime loop's decision after a wait for console input: it stops when
/// the input closes or a handled packet shut the runtime down, goes on without
/// saving after a line that is not hexadecimal bytes, and saves the state
/// after anything else.
pub fn step_after_wait(event: &WaitEvent) -> (r: LoopStep)
    ensures
        r == (match *event {
            WaitEvent::Closed => LoopStep::Stop,
            WaitEvent::Handled(running) => if running {
                LoopStep::SaveAndContinue
            } else {
                LoopStep::Stop
            },
            WaitEvent::NotHex => LoopStep::Continue,
            _ => LoopStep::SaveAndContinue,
        }),
{
    match event {
        WaitEvent::Closed => LoopStep::Stop,
        WaitEvent::Handled(running) => if *running {
            LoopStep::SaveAndContinue
        } else {
            LoopStep::Stop
        },
        WaitEvent::NotHex => LoopStep::Continue,
        WaitEvent::Quiet | WaitEvent::Blank | WaitEvent::Refused => LoopStep::SaveAndContinue,
    }
}

/// Law: how a console word reads as a byte. The digits `0`-`9`, `a`-`f` and
/// `A`-`F` are worth 0 to 15; a word of one or two hexadecimal digits, with or
/// without a leading `+`, is the byte they write in base 16; a word with a
/// character that is not a hexadecimal digit (after the optional `+`) is no
/// byte.
pub proof fn lemma_hex_words(a: char, b: char, w: Seq<char>, i: int)
    ensures
        hex_digit('0') == Some(0int),
        hex_digit('9') == Some(9int),
        hex_digit('a') == Some(10int),
        hex_digit('f') == Some(15int),
        hex_digit('A') == Some(10int),
        hex_digit('F') == Some(15int),
        hex_digit(a) is Some ==> 0 <= hex_digit(a)->Some_0 < 16,
        hex_digit(a) is Some ==> hex_byte(seq![a]) == Some((hex_digit(a)->Some_0) as u8),
        hex_digit(a) is Some && hex_digit(b) is Some ==> hex_byte(seq![a, b]) == Some(
            (hex_digit(a)->Some_0 * 16 + hex_digit(b)->Some_0) as u8,
        ),
        hex_digit(a) is Some && hex_digit(b) is Some ==> hex_byte(seq!['+', a, b]) == hex_byte(
            seq![a, b],
        ),
        w.len() > 0 && w[0] != '+' && 0 <= i < w.len() && hex_digit(w[i]) is None ==> hex_byte(w) is None,
{
    if hex_digit(a) is Some {
        let one = seq![a];
        assert(one.drop_last() =~= Seq::<char>::empty());
        assert(all_hex(one));
        let da = hex_digit(a)->Some_0;
        assert(hex_number(Seq::<char>::empty()) == 0);
        assert(hex_number(one) == da);
        if hex_digit(b) is Some {
            let db = hex_digit(b)->Some_0;
            let two = seq![a, b];
            assert(two.drop_last() =~= one);
            assert(two.last() == b);
            assert(all_hex(two));
            assert(hex_number(two) == da * 16 + db);
            assert(0 <= da * 16 + db <= 0xFF) by (nonlinear_arith)
                requires
                    0 <= da < 16,
                    0 <= db < 16,
            ;
            assert(seq!['+', a, b].drop_first() =~= two);
        }
    }
}

} // verus!
