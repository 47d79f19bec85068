use vstd::prelude::*;

verus! {

/// Unicode whitespace (the `White_Space` property), as trimmed and split on
/// by the storage file reader and the console.
pub open spec fn is_whitespace(c: char) -> bool {
    ||| '\u{9}' <= c <= '\u{d}'
    ||| c == ' '
    ||| c == '\u{85}'
    ||| c == '\u{a0}'
    ||| c == '\u{1680}'
    ||| '\u{2000}' <= c <= '\u{200a}'
    ||| c == '\u{2028}'
    ||| c == '\u{2029}'
    ||| c == '\u{202f}'
    ||| c == '\u{205f}'
    ||| c == '\u{3000}'
}

/// Whether `c` is Unicode whitespace.
pub fn char_is_whitespace(c: char) -> (r: bool)
    ensures
        r == is_whitespace(c),
{
    ('\u{9}' <= c && c <= '\u{d}') || c == ' ' || c == '\u{85}' || c == '\u{a0}' || c == '\u{1680}'
        || ('\u{2000}' <= c && c <= '\u{200a}') || c == '\u{2028}' || c == '\u{2029}' || c
        == '\u{202f}' || c == '\u{205f}' || c == '\u{3000}'
}

/// The number of characters of `s` before the first `c` (all of `s` if none).
pub open spec fn len_before(s: Seq<char>, c: char) -> nat
    decreases s.len(),
{
    if s.len() == 0 {
        0
    } else if s[0] == c {
        0
    } else {
        1 + len_before(s.drop_first(), c)
    }
}

/// A line without the carriage return of a `\r\n` ending.
pub open spec fn strip_cr(l: Seq<char>) -> Seq<char> {
    if l.len() > 0 && l.last() == '\r' {
        l.drop_last()
    } else {
        l
    }
}

/// The lines of a text: split at each `\n`, dropping a `\r` just before it; the
/// last line needs no ending, and a final ending adds no empty line.
#[verifier::opaque]
pub open spec fn text_lines(s: Seq<char>) -> Seq<Seq<char>>
    decreases s.len(),
{
    if s.len() == 0 {
        seq![]
    } else {
        let k = len_before(s, '\n');
        if k >= s.len() {
            seq![s]
        } else {
            seq![strip_cr(s.take(k as int))] + text_lines(s.skip((k + 1) as int))
        }
    }
}

/// `s` without its leading whitespace.
pub open spec fn trim_start(s: Seq<char>) -> Seq<char>
    decreases s.len(),
{
    if s.len() > 0 && is_whitespace(s[0]) {
        trim_start(s.drop_first())
    } else {
        s
    }
}

/// `s` without its trailing whitespace.
pub open spec fn trim_end(s: Seq<char>) -> Seq<char>
    decreases s.len(),
{
    if s.len() > 0 && is_whitespace(s.last()) {
        trim_end(s.drop_last())
    } else {
        s
    }
}

/// `s` without leading and trailing whitespace.
pub open spec fn trim(s: Seq<char>) -> Seq<char> {
    trim_end(trim_start(s))
}

/// Whether `w` occurs in `l` as a contiguous run.
pub open spec fn contains_word(l: Seq<char>, w: Seq<char>) -> bool {
    exists|i: int| 0 <= i && i + w.len() <= l.len() && #[trigger] l.subrange(i, i + w.len()) == w
}

pub proof fn lemma_len_before(s: Seq<char>, c: char, k: int)
    requires
        0 <= k <= s.len(),
        forall|j: int| 0 <= j < k ==> s[j] != c,
        k == s.len() || s[k] == c,
    ensures
        len_before(s, c) == k,
    decreases k,
{
    if k > 0 {
        lemma_len_before(s.drop_first(), c, k - 1);
    }
}

/// Collects characters into a `String` with the same characters.
#[verifier::external_body]
pub(crate) fn chars_to_string(chars: &[char]) -> (r: String)
    ensures
        r@ == chars@,
{
    String::from_iter(chars)
}

/// Copies `s[from..to]`.
pub fn copy_range(s: &[char], from: usize, to: usize) -> (r: Vec<char>)
    requires
        from <= to <= s@.len(),
    ensures
        r@ == s@.subrange(from as int, to as int),
{
    let mut r: Vec<char> = Vec::new();
    let mut i = from;
    while i < to
        invariant
            from <= i <= to <= s@.len(),
            r@ == s@.subrange(from as int, i as int),
        decreases to - i,
    {
        r.push(s[i]);
        i = i + 1;
    }
    r
}

/// Splits a text into its lines.
pub fn split_lines(text: &[char]) -> (r: Vec<Vec<char>>)
    ensures
        r@.map_values(|l: Vec<char>| l@) == text_lines(text@),
{
    reveal(text_lines);
    let n = text.len();
    let mut out: Vec<Vec<char>> = Vec::new();
    let mut start: usize = 0;
    let mut i: usize = 0;
    assert(text@.skip(0) =~= text@);
    while i < n
        invariant
            n == text@.len(),
            start <= i <= n,
            forall|j: int| start <= j < i ==> text@[j] != '\n',
            text_lines(text@) == out@.map_values(|l: Vec<char>| l@) + text_lines(
                text@.skip(start as int),
            ),
        decreases n - i,
    {
        proof {
            reveal(text_lines);
        }
        if text[i] == '\n' {
            let ghost rest = text@.skip(start as int);
            proof {
                lemma_len_before(rest, '\n', (i - start) as int);
                assert(rest.take((i - start) as int) =~= text@.subrange(start as int, i as int));
                assert(rest.skip((i - start) + 1) =~= text@.skip(i + 1));
            }
            let mut end = i;
            if end > start && text[end - 1] == '\r' {
                end = end - 1;
            }
            let line = copy_range(text, start, end);
            assert(line@ == strip_cr(text@.subrange(start as int, i as int)));
            let ghost before = out@.map_values(|l: Vec<char>| l@);
            out.push(line);
            assert(out@.map_values(|l: Vec<char>| l@) =~= before.push(line@));
            assert(before.push(line@) + text_lines(text@.skip(i + 1)) =~= before + (seq![line@]
                + text_lines(text@.skip(i + 1))));
            start = i + 1;
        }
        i = i + 1;
    }
    let ghost rest = text@.skip(start as int);
    if start < n {
        proof {
            lemma_len_before(rest, '\n', rest.len() as int);
        }
        let line = copy_range(text, start, n);
        assert(line@ =~= rest);
        let ghost before = out@.map_values(|l: Vec<char>| l@);
        out.push(line);
        assert(out@.map_values(|l: Vec<char>| l@) =~= before + seq![rest]);
    } else {
        assert(rest.len() == 0);
        assert(out@.map_values(|l: Vec<char>| l@) + text_lines(rest) =~= out@.map_values(
            |l: Vec<char>| l@,
        ));
    }
    out
}

/// The bounds of `s[from..to]` with leading and trailing whitespace removed.
pub fn trim_range(s: &[char], from: usize, to: usize) -> (r: (usize, usize))
    requires
        from <= to <= s@.len(),
    ensures
        from <= r.0 <= r.1 <= to,
        s@.subrange(r.0 as int, r.1 as int) == trim(s@.subrange(from as int, to as int)),
{
    let ghost whole = s@.subrange(from as int, to as int);
    let mut a = from;
    assert(whole =~= s@.subrange(a as int, to as int));
    while a < to && char_is_whitespace(s[a])
        invariant
            from <= a <= to <= s@.len(),
            trim_start(whole) == trim_start(s@.subrange(a as int, to as int)),
        decreases to - a,
    {
        assert(s@.subrange(a as int, to as int).drop_first() =~= s@.subrange(a + 1, to as int));
        a = a + 1;
    }
    assert(trim_start(whole) == s@.subrange(a as int, to as int));
    let mut b = to;
    while b > a && char_is_whitespace(s[b - 1])
        invariant
            from <= a <= b <= to <= s@.len(),
            trim(whole) == trim_end(s@.subrange(a as int, b as int)),
        decreases b - a,
    {
        assert(s@.subrange(a as int, b as int).drop_last() =~= s@.subrange(a as int, b - 1));
        b = b - 1;
    }
    (a, b)
}

/// Whether the word `w` occurs in `l`.
pub fn has_word(l: &[char], w: &[char]) -> (r: bool)
    ensures
        r == contains_word(l@, w@),
{
    if w.len() > l.len() {
        return false;
    }
    let mut i: usize = 0;
    let ln = l.len();
    let last = ln - w.len();
    while i <= last
        invariant
            w@.len() <= l@.len(),
            ln == l@.len(),
            last == l@.len() - w@.len(),
            i <= last + 1,
            forall|k: int| 0 <= k < i ==> #[trigger] l@.subrange(k, k + w@.len()) != w@,
        decreases l@.len() + 1 - i,
    {
        let mut j: usize = 0;
        let mut same = true;
        while j < w.len()
            invariant
                i + w@.len() <= l@.len(),
                ln == l@.len(),
                j <= w@.len(),
                same == (forall|m: int| 0 <= m < j ==> l@[i + m] == w@[m]),
            decreases w@.len() - j,
        {
            if l[i + j] != w[j] {
                same = false;
            }
            j = j + 1;
        }
        if same {
            assert(l@.subrange(i as int, i + w@.len()) =~= w@);
            return true;
        }
        assert(l@.subrange(i as int, i + w@.len())[0] == l@[i as int]);
        assert(exists|m: int| 0 <= m < w@.len() && l@[i + m] != w@[m]);
        let ghost m = choose|m: int| 0 <= m < w@.len() && l@[i + m] != w@[m];
        assert(l@.subrange(i as int, i + w@.len())[m] != w@[m]);
        i = i + 1;
    }
    assert forall|k: int| 0 <= k && k + w@.len() <= l@.len() implies #[trigger] l@.subrange(
        k,
        k + w@.len(),
    ) != w@ by {
        assert(k < i);
    }
    false
}

/// `trim_start` drops a leading run of whitespace and stops at the first
/// character that is not whitespace.
proof fn lemma_trim_start_shape(s: Seq<char>)
    ensures
        exists|a: int|
            0 <= a <= s.len() && #[trigger] s.skip(a) == trim_start(s) && (forall|j: int|
                0 <= j < a ==> is_whitespace(#[trigger] s[j])),
        trim_start(s).len() > 0 ==> !is_whitespace(trim_start(s)[0]),
    decreases s.len(),
{
    if s.len() > 0 && is_whitespace(s[0]) {
        lemma_trim_start_shape(s.drop_first());
        let a = choose|a: int|
            0 <= a <= s.drop_first().len() && #[trigger] s.drop_first().skip(a) == trim_start(
                s.drop_first(),
            ) && (forall|j: int| 0 <= j < a ==> is_whitespace(#[trigger] s.drop_first()[j]));
        assert(s.skip(a + 1) =~= s.drop_first().skip(a));
        assert forall|j: int| 0 <= j < a + 1 implies is_whitespace(#[trigger] s[j]) by {
            if j > 0 {
                assert(s[j] == s.drop_first()[j - 1]);
            }
        }
    } else {
        assert(s.skip(0) =~= s);
    }
}

/// `trim_end` drops a trailing run of whitespace and stops at the last
/// character that is not whitespace.
proof fn lemma_trim_end_shape(s: Seq<char>)
    ensures
        exists|b: int|
            0 <= b <= s.len() && #[trigger] s.take(b) == trim_end(s) && (forall|j: int|
                b <= j < s.len() ==> is_whitespace(#[trigger] s[j])),
        trim_end(s).len() > 0 ==> !is_whitespace(trim_end(s).last()),
    decreases s.len(),
{
    if s.len() > 0 && is_whitespace(s.last()) {
        lemma_trim_end_shape(s.drop_last());
        let b = choose|b: int|
            0 <= b <= s.drop_last().len() && #[trigger] s.drop_last().take(b) == trim_end(s.drop_last())
                && (forall|j: int| b <= j < s.drop_last().len() ==> is_whitespace(#[trigger] s.drop_last()[j]));
        assert(s.take(b) =~= s.drop_last().take(b));
        assert forall|j: int| b <= j < s.len() implies is_whitespace(#[trigger] s[j]) by {
            if j < s.len() - 1 {
                assert(s[j] == s.drop_last()[j]);
            }
        }
    } else {
        assert(s.take(s.len() as int) =~= s);
    }
}

/// Law: trimming keeps the middle of a text: `trim(s)` is the run of `s` from
/// `a` to `b`, where everything before `a` and after `b` is whitespace, and it
/// neither starts nor ends with whitespace.
pub proof fn lemma_trim_shape(s: Seq<char>)
    ensures
        exists|a: int, b: int|
            0 <= a <= b <= s.len() && #[trigger] s.subrange(a, b) == trim(s) && (forall|j: int|
                0 <= j < a ==> is_whitespace(#[trigger] s[j])) && (forall|j: int|
                b <= j < s.len() ==> is_whitespace(#[trigger] s[j])),
        trim(s).len() > 0 ==> !is_whitespace(trim(s)[0]) && !is_whitespace(trim(s).last()),
{
    lemma_trim_start_shape(s);
    let a = choose|a: int|
        0 <= a <= s.len() && #[trigger] s.skip(a) == trim_start(s) && (forall|j: int|
            0 <= j < a ==> is_whitespace(#[trigger] s[j]));
    let t = trim_start(s);
    lemma_trim_end_shape(t);
    let b = choose|b: int|
        0 <= b <= t.len() && #[trigger] t.take(b) == trim_end(t) && (forall|j: int|
            b <= j < t.len() ==> is_whitespace(#[trigger] t[j]));
    assert(s.subrange(a, a + b) =~= t.take(b));
    assert forall|j: int| a + b <= j < s.len() implies is_whitespace(#[trigger] s[j]) by {
        assert(s[j] == t[j - a]);
    }
    if trim(s).len() > 0 {
        assert(trim(s)[0] == t[0]);
    }
}

} // verus!
