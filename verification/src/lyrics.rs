//! Lyric time-synchronization engine.
//!
//! Provider text arrives either plain or time-coded. A time-coded line has
//! the shape `[minutes:seconds.fraction]text`; it is parsed into a
//! millisecond timestamp (`minutes * 60000 + seconds * 1000`, the fraction
//! rounded to whole milliseconds) and its trimmed text. Malformed lines are
//! silently skipped. The parsed lines are kept sorted by strictly increasing
//! timestamp, with a later line replacing an earlier one that carries the
//! same timestamp, so the timestamp sequence is exactly the key set of the
//! timestamp-to-text map.

use crate::chars::{
    copy_range, digit_val, exec_is_ascii_digit, is_ascii_digit, spec_trim, string_chars,
    trim_range,
};
use crate::Rect;
use vstd::prelude::*;

verus! {

/// One time-coded lyric line: its timestamp in milliseconds and its text.
pub struct TimedLine {
    pub timestamp: u32,
    pub text: Vec<char>,
}

impl TimedLine {
    pub open spec fn view_pair(&self) -> (u32, Seq<char>) {
        (self.timestamp, self.text@)
    }
}

/// The index of the first character at or after `i` that is not a decimal
/// digit.
pub open spec fn spec_scan_digits(s: Seq<char>, i: int) -> int
    decreases s.len() - i,
{
    if 0 <= i < s.len() && is_ascii_digit(s[i]) {
        spec_scan_digits(s, i + 1)
    } else {
        i
    }
}

/// The numeric value of the digit run `s[i..j]`.
pub open spec fn spec_digits_val(s: Seq<char>, i: int, j: int) -> nat
    decreases j - i,
{
    if i >= j {
        0
    } else {
        spec_digits_val(s, i, j - 1) * 10 + digit_val(s[j - 1])
    }
}

pub open spec fn spec_pow10(n: int) -> nat
    decreases n,
{
    if n <= 0 {
        1
    } else {
        10 * spec_pow10(n - 1)
    }
}

/// The fraction digits `s[i..j]` as whole milliseconds: scaled up when fewer
/// than three digits are given, rounded half-up on the fourth digit when
/// more are given.
pub open spec fn spec_frac_ms(s: Seq<char>, i: int, j: int) -> nat {
    if j - i <= 3 {
        spec_digits_val(s, i, j) * spec_pow10(3 - (j - i))
    } else {
        spec_digits_val(s, i, i + 3) + if digit_val(s[i + 3]) >= 5 {
            1nat
        } else {
            0nat
        }
    }
}

/// What a lyric line parses to: the timestamp in milliseconds and the
/// trimmed text after the closing bracket, or nothing when the line does not
/// have the `[minutes:seconds.fraction]` shape or its timestamp exceeds
/// `u32::MAX` milliseconds.
pub open spec fn spec_parse_timed_line(s: Seq<char>) -> Option<(u32, Seq<char>)> {
    if s.len() == 0 || s[0] != '[' {
        None
    } else {
        let m_end = spec_scan_digits(s, 1);
        if m_end == 1 || m_end >= s.len() || s[m_end] != ':' {
            None
        } else {
            let s_end = spec_scan_digits(s, m_end + 1);
            if s_end == m_end + 1 || s_end >= s.len() || s[s_end] != '.' {
                None
            } else {
                let f_end = spec_scan_digits(s, s_end + 1);
                if f_end == s_end + 1 || f_end >= s.len() || s[f_end] != ']' {
                    None
                } else {
                    let total = spec_digits_val(s, 1, m_end) * 60000 + spec_digits_val(
                        s,
                        m_end + 1,
                        s_end,
                    ) * 1000 + spec_frac_ms(s, s_end + 1, f_end);
                    if total > u32::MAX {
                        None
                    } else {
                        Some(((total as u32), spec_trim(s.subrange(f_end + 1, s.len() as int))))
                    }
                }
            }
        }
    }
}

/// A longer digit run never has a smaller value.
proof fn lemma_digits_val_monotonic(s: Seq<char>, i: int, j: int, k: int)
    requires
        i <= j <= k,
    ensures
        spec_digits_val(s, i, j) <= spec_digits_val(s, i, k),
    decreases k - j,
{
    if j < k {
        lemma_digits_val_monotonic(s, i, j, k - 1);
        assert(spec_digits_val(s, i, k) == spec_digits_val(s, i, k - 1) * 10 + digit_val(
            s[k - 1],
        ));
    }
}

/// Scans the digit run starting at `i`, returning the index of the first
/// non-digit, together with the run's value capped at `u32::MAX + 1`.
fn scan_digits_value(v: &Vec<char>, i: usize) -> (r: (usize, u64))
    requires
        i <= v@.len(),
    ensures
        r.0 == spec_scan_digits(v@, i as int),
        i <= r.0 <= v@.len(),
        r.1 <= 0x1_0000_0000u64,
        r.1 <= 0xffff_ffffu64 ==> r.1 == spec_digits_val(v@, i as int, r.0 as int),
        r.1 > 0xffff_ffffu64 ==> spec_digits_val(v@, i as int, r.0 as int) > u32::MAX,
    decreases v@.len() - i,
{
    let mut j = i;
    let mut val: u64 = 0;
    while j < v.len() && exec_is_ascii_digit(v[j])
        invariant
            i <= j <= v@.len(),
            spec_scan_digits(v@, i as int) == spec_scan_digits(v@, j as int),
            val <= 0x1_0000_0000u64,
            val <= 0xffff_ffffu64 ==> val == spec_digits_val(v@, i as int, j as int),
            val > 0xffff_ffffu64 ==> spec_digits_val(v@, i as int, j as int) > u32::MAX,
        decreases v@.len() - j,
    {
        let d = (v[j] as u32) - 48;
        if val <= 0xffff_ffffu64 {
            let next = val * 10 + (d as u64);
            if next > 0xffff_ffffu64 {
                val = 0x1_0000_0000u64;
            } else {
                val = next;
            }
        }
        proof {
            lemma_digits_val_monotonic(v@, i as int, j as int, j + 1 as int);
        }
        j += 1;
    }
    (j, val)
}

/// Parses one lyric line; returns exactly what `spec_parse_timed_line` says.
pub fn parse_timed_line(v: &Vec<char>) -> (r: Option<(u32, Vec<char>)>)
    ensures
        match r {
            Some((ts, text)) => spec_parse_timed_line(v@) == Some((ts, text@)),
            None => spec_parse_timed_line(v@) is None,
        },
{
    if v.len() == 0 || v[0] != '[' {
        return None;
    }
    let (m_end, minutes) = scan_digits_value(v, 1);
    if m_end == 1 || m_end >= v.len() || v[m_end] != ':' {
        return None;
    }
    let (s_end, seconds) = scan_digits_value(v, m_end + 1);
    if s_end == m_end + 1 || s_end >= v.len() || v[s_end] != '.' {
        return None;
    }
    let (f_end, _) = scan_digits_value(v, s_end + 1);
    if f_end == s_end + 1 || f_end >= v.len() || v[f_end] != ']' {
        return None;
    }
    proof {
        lemma_scan_digits_range(v@, s_end + 1 as int);
    }
    let frac = frac_ms(v, s_end + 1, f_end);
    if minutes > 0xffff_ffffu64 || seconds > 0xffff_ffffu64 {
        proof {
            if minutes > 0xffff_ffffu64 {
                assert(spec_digits_val(v@, 1, m_end as int) * 60000 >= spec_digits_val(
                    v@,
                    1,
                    m_end as int,
                )) by (nonlinear_arith);
            } else {
                assert(spec_digits_val(v@, m_end + 1 as int, s_end as int) * 1000
                    >= spec_digits_val(v@, m_end + 1 as int, s_end as int)) by (nonlinear_arith);
            }
        }
        return None;
    }
    let total: u64 = match minutes.checked_mul(60000) {
        Some(m) => m,
        None => {
            return None;
        },
    };
    let total: u64 = match total.checked_add(seconds * 1000) {
        Some(t) => t,
        None => {
            return None;
        },
    };
    let total: u64 = match total.checked_add(frac as u64) {
        Some(t) => t,
        None => {
            return None;
        },
    };
    if total > 0xffff_ffffu64 {
        return None;
    }
    let text = trim_range(v, f_end + 1, v.len());
    Some((total as u32, text))
}

/// The small powers of ten, by unfolding.
proof fn lemma_pow10_small()
    ensures
        spec_pow10(0) == 1,
        spec_pow10(1) == 10,
        spec_pow10(2) == 100,
        spec_pow10(3) == 1000,
{
    reveal_with_fuel(spec_pow10, 5);
}

/// A run of `j - i` digits has a value below the matching power of ten.
proof fn lemma_digits_val_bound(s: Seq<char>, i: int, j: int)
    requires
        i <= j,
        forall|k: int| i <= k < j ==> is_ascii_digit(s[k]),
    ensures
        spec_digits_val(s, i, j) < spec_pow10(j - i),
    decreases j - i,
{
    if i < j {
        lemma_digits_val_bound(s, i, j - 1);
        assert(spec_pow10(j - i) == 10 * spec_pow10(j - i - 1));
        assert(digit_val(s[j - 1]) <= 9);
    }
}

/// Everything between `i` and where the scan stops is a digit.
proof fn lemma_scan_digits_range(s: Seq<char>, i: int)
    requires
        0 <= i <= s.len(),
    ensures
        i <= spec_scan_digits(s, i) <= s.len(),
        forall|k: int| i <= k < spec_scan_digits(s, i) ==> is_ascii_digit(s[k]),
    decreases s.len() - i,
{
    if i < s.len() && is_ascii_digit(s[i]) {
        lemma_scan_digits_range(s, i + 1);
    }
}

/// The fraction digits `v[i..j]` as whole milliseconds.
fn frac_ms(v: &Vec<char>, i: usize, j: usize) -> (r: u32)
    requires
        i < j <= v@.len(),
        forall|k: int| i <= k < j ==> is_ascii_digit(v@[k]),
    ensures
        r == spec_frac_ms(v@, i as int, j as int),
        r <= 1000,
{
    proof {
        lemma_pow10_small();
    }
    let upto = if j - i <= 3 {
        j
    } else {
        i + 3
    };
    let mut val: u32 = 0;
    let mut k = i;
    while k < upto
        invariant
            i <= k <= upto <= j <= v@.len(),
            upto - i <= 3,
            forall|m: int| i <= m < j ==> is_ascii_digit(v@[m]),
            val == spec_digits_val(v@, i as int, k as int),
            val <= 999,
        decreases upto - k,
    {
        proof {
            lemma_pow10_small();
            lemma_digits_val_bound(v@, i as int, k as int);
            if k - i == 0 {
                assert(val < 1);
            } else if k - i == 1 {
                assert(val < 10);
            } else {
                assert(val < 100);
            }
        }
        let d = (v[k] as u32) - 48;
        val = val * 10 + d;
        k += 1;
    }
    proof {
        lemma_pow10_small();
        lemma_digits_val_bound(v@, i as int, upto as int);
    }
    if j - i == 1 {
        val * 100
    } else if j - i == 2 {
        val * 10
    } else if j - i == 3 {
        proof {
            // a whole value times the trivial scale is itself
            let ghost dv = spec_digits_val(v@, i as int, j as int);
            assert(dv * 1 == dv) by (nonlinear_arith);
        }
        val
    } else {
        let fourth = (v[i + 3] as u32) - 48;
        if fourth >= 5 {
            val + 1
        } else {
            val
        }
    }
}

/// The timestamp-and-text pairs of a list of timed lines.
pub open spec fn lines_view(list: Seq<TimedLine>) -> Seq<(u32, Seq<char>)> {
    list.map_values(|l: TimedLine| (l.timestamp, l.text@))
}

/// The timestamps of a list of pairs, in order.
pub open spec fn keys_of(list: Seq<(u32, Seq<char>)>) -> Seq<u32> {
    list.map_values(|p: (u32, Seq<char>)| p.0)
}

/// Strictly ascending: every timestamp is below every later one, so there
/// are no duplicates.
pub open spec fn sorted_strict(ts: Seq<u32>) -> bool {
    forall|a: int, b: int| 0 <= a < b < ts.len() ==> ts[a] < ts[b]
}

/// Where a new pair lands in a timestamp-ordered list: before the first
/// larger timestamp, replacing an equal one.
pub open spec fn spec_insert_timed(
    list: Seq<(u32, Seq<char>)>,
    ts: u32,
    text: Seq<char>,
) -> Seq<(u32, Seq<char>)>
    decreases list.len(),
{
    if list.len() == 0 {
        seq![(ts, text)]
    } else if ts < list[0].0 {
        seq![(ts, text)] + list
    } else if ts == list[0].0 {
        seq![(ts, text)] + list.drop_first()
    } else {
        seq![list[0]] + spec_insert_timed(list.drop_first(), ts, text)
    }
}

/// The recursive insertion, located: at the first position whose timestamp
/// is not smaller, it updates in place when that timestamp is equal and
/// inserts there otherwise.
proof fn lemma_insert_timed_at(l: Seq<(u32, Seq<char>)>, ts: u32, text: Seq<char>, pos: int)
    requires
        0 <= pos <= l.len(),
        forall|k: int| 0 <= k < pos ==> l[k].0 < ts,
        pos < l.len() ==> ts <= l[pos].0,
    ensures
        spec_insert_timed(l, ts, text) == (if pos < l.len() && l[pos].0 == ts {
            l.update(pos, (ts, text))
        } else {
            l.insert(pos, (ts, text))
        }),
    decreases pos,
{
    if pos == 0 {
        if l.len() == 0 {
            assert(seq![(ts, text)] =~= l.insert(0, (ts, text)));
        } else if ts < l[0].0 {
            assert(seq![(ts, text)] + l =~= l.insert(0, (ts, text)));
        } else {
            assert(ts == l[0].0);
            assert(seq![(ts, text)] + l.drop_first() =~= l.update(0, (ts, text)));
        }
    } else {
        let tail = l.drop_first();
        lemma_insert_timed_at(tail, ts, text, pos - 1);
        assert(ts > l[0].0);
        if pos < l.len() && l[pos].0 == ts {
            assert(tail[pos - 1].0 == ts);
            assert(seq![l[0]] + tail.update(pos - 1, (ts, text)) =~= l.update(pos, (ts, text)));
        } else {
            assert(seq![l[0]] + tail.insert(pos - 1, (ts, text)) =~= l.insert(pos, (ts, text)));
        }
    }
}

/// Inserting keeps the timestamps strictly ascending, and the new list's
/// timestamps are the old ones together with the inserted one.
pub proof fn lemma_insert_timed_sorted(l: Seq<(u32, Seq<char>)>, ts: u32, text: Seq<char>)
    requires
        sorted_strict(keys_of(l)),
    ensures
        sorted_strict(keys_of(spec_insert_timed(l, ts, text))),
        forall|x: u32|
            keys_of(spec_insert_timed(l, ts, text)).contains(x) <==> (x == ts || keys_of(
                l,
            ).contains(x)),
    decreases l.len(),
{
    broadcast use vstd::seq_lib::lemma_seq_concat_contains_all_elements;

    let r = spec_insert_timed(l, ts, text);
    if l.len() == 0 {
        assert(keys_of(r) =~= seq![ts]);
        assert forall|x: u32| keys_of(r).contains(x) <==> (x == ts || keys_of(l).contains(x)) by {
            assert(keys_of(r)[0] == ts);
        }
    } else if ts < l[0].0 {
        assert(keys_of(r) =~= seq![ts] + keys_of(l));
        assert forall|x: u32| keys_of(r).contains(x) <==> (x == ts || keys_of(l).contains(x)) by {
            assert(seq![ts][0] == ts);
        }
        assert forall|a: int, b: int| 0 <= a < b < keys_of(r).len() implies keys_of(r)[a] < keys_of(
            r,
        )[b] by {
            if a > 0 {
                assert(keys_of(r)[a] == keys_of(l)[a - 1]);
                assert(keys_of(r)[b] == keys_of(l)[b - 1]);
            } else {
                assert(keys_of(r)[b] == keys_of(l)[b - 1]);
                if b > 1 {
                    assert(keys_of(l)[0] < keys_of(l)[b - 1]);
                }
            }
        }
    } else if ts == l[0].0 {
        assert(keys_of(r) =~= keys_of(l));
        assert forall|x: u32| keys_of(r).contains(x) <==> (x == ts || keys_of(l).contains(x)) by {
            assert(keys_of(l)[0] == ts);
        }
    } else {
        let tail = l.drop_first();
        assert(keys_of(tail) =~= keys_of(l).drop_first());
        lemma_insert_timed_sorted(tail, ts, text);
        let rt = spec_insert_timed(tail, ts, text);
        assert(keys_of(r) =~= seq![l[0].0] + keys_of(rt));
        assert forall|x: u32| keys_of(r).contains(x) <==> (x == ts || keys_of(l).contains(x)) by {
            assert(seq![l[0].0][0] == l[0].0);
            assert(keys_of(l)[0] == l[0].0);
            if keys_of(l).contains(x) {
                let i = choose|i: int| 0 <= i < keys_of(l).len() && keys_of(l)[i] == x;
                if i > 0 {
                    assert(keys_of(tail)[i - 1] == x);
                }
            }
            if keys_of(tail).contains(x) {
                let i = choose|i: int| 0 <= i < keys_of(tail).len() && keys_of(tail)[i] == x;
                assert(keys_of(l)[i + 1] == x);
            }
        }
        assert forall|a: int, b: int| 0 <= a < b < keys_of(r).len() implies keys_of(r)[a] < keys_of(
            r,
        )[b] by {
            if a == 0 {
                // everything in the inserted tail is ts or an old tail
                // timestamp, both above the head timestamp
                let x = keys_of(rt)[b - 1];
                assert(keys_of(rt).contains(x));
                if x != ts {
                    assert(keys_of(tail).contains(x));
                    let i = choose|i: int| 0 <= i < keys_of(tail).len() && keys_of(tail)[i] == x;
                    assert(keys_of(l)[0] < keys_of(l)[i + 1]);
                }
            } else {
                assert(keys_of(r)[a] == keys_of(rt)[a - 1]);
                assert(keys_of(r)[b] == keys_of(rt)[b - 1]);
            }
        }
    }
}

/// One lyric line folded into the accumulated timed lines: a line that
/// parses is inserted, any other line is skipped.
pub open spec fn spec_line_step(
    acc: Seq<(u32, Seq<char>)>,
    line: Seq<char>,
) -> Seq<(u32, Seq<char>)> {
    match spec_parse_timed_line(line) {
        Some((ts, text)) => spec_insert_timed(acc, ts, text),
        None => acc,
    }
}

/// All lines folded in order into the accumulated timed lines.
pub open spec fn spec_ingest_lines(
    lines: Seq<Seq<char>>,
    acc: Seq<(u32, Seq<char>)>,
) -> Seq<(u32, Seq<char>)>
    decreases lines.len(),
{
    if lines.len() == 0 {
        acc
    } else {
        spec_ingest_lines(lines.drop_first(), spec_line_step(acc, lines[0]))
    }
}

/// The index of the first newline, or the text's length when there is none.
pub open spec fn spec_find_newline(s: Seq<char>) -> nat
    decreases s.len(),
{
    if s.len() == 0 {
        0
    } else if s[0] == '\n' {
        0
    } else {
        1 + spec_find_newline(s.drop_first())
    }
}

proof fn lemma_find_newline_le_len(s: Seq<char>)
    ensures
        spec_find_newline(s) <= s.len(),
    decreases s.len(),
{
    if s.len() > 0 && s[0] != '\n' {
        lemma_find_newline_le_len(s.drop_first());
    }
}

/// The text split at every newline; a final newline closes the last line
/// rather than opening an empty one.
pub open spec fn spec_split_lines(s: Seq<char>) -> Seq<Seq<char>>
    decreases s.len(),
{
    if s.len() == 0 {
        Seq::empty()
    } else {
        let j = spec_find_newline(s) as int;
        if j >= s.len() {
            seq![s]
        } else {
            seq![s.subrange(0, j)] + spec_split_lines(s.subrange(j + 1, s.len() as int))
        }
    }
}

/// What time-coded provider text parses to: every line folded, in order,
/// into a timestamp-ordered list.
pub open spec fn spec_parse_lyrics(s: Seq<char>) -> Seq<(u32, Seq<char>)> {
    spec_ingest_lines(spec_split_lines(s), Seq::empty())
}

/// Inserts one timed line, keeping the list ordered by timestamp; an equal
/// timestamp replaces the earlier text.
pub fn insert_timed(list: &mut Vec<TimedLine>, ts: u32, text: Vec<char>)
    ensures
        lines_view(final(list)@) == spec_insert_timed(lines_view(old(list)@), ts, text@),
{
    let ghost l = lines_view(old(list)@);
    let ghost textv = text@;
    let mut pos: usize = 0;
    while pos < list.len() && list[pos].timestamp < ts
        invariant
            pos <= list@.len(),
            list@ == old(list)@,
            forall|k: int| 0 <= k < pos ==> list@[k].timestamp < ts,
        decreases list@.len() - pos,
    {
        pos += 1;
    }
    proof {
        assert forall|k: int| 0 <= k < pos implies l[k].0 < ts by {
            assert(l[k] == (list@[k].timestamp, list@[k].text@));
        }
        lemma_insert_timed_at(l, ts, textv, pos as int);
    }
    if pos < list.len() && list[pos].timestamp == ts {
        list.set(pos, TimedLine { timestamp: ts, text });
        proof {
            assert(lines_view(list@) =~= l.update(pos as int, (ts, textv)));
        }
    } else {
        list.insert(pos, TimedLine { timestamp: ts, text });
        proof {
            assert(lines_view(list@) =~= l.insert(pos as int, (ts, textv)));
        }
    }
}

/// Parses provider text into its timed lines, exactly as
/// `spec_parse_lyrics` says; the timestamps come out strictly ascending.
pub fn parse_lyrics(chars: &Vec<char>) -> (r: Vec<TimedLine>)
    ensures
        lines_view(r@) == spec_parse_lyrics(chars@),
        sorted_strict(keys_of(lines_view(r@))),
{
    let ghost whole = chars@;
    let mut acc: Vec<TimedLine> = Vec::new();
    let mut i: usize = 0;
    proof {
        assert(whole.subrange(0, whole.len() as int) =~= whole);
        assert(lines_view(acc@) =~= Seq::<(u32, Seq<char>)>::empty());
    }
    while i < chars.len()
        invariant
            i <= chars@.len(),
            chars@ == whole,
            spec_ingest_lines(
                spec_split_lines(whole.subrange(i as int, whole.len() as int)),
                lines_view(acc@),
            ) == spec_parse_lyrics(whole),
            sorted_strict(keys_of(lines_view(acc@))),
        decreases chars@.len() - i,
    {
        let ghost rest = whole.subrange(i as int, whole.len() as int);
        let mut j: usize = i;
        while j < chars.len() && chars[j] != '\n'
            invariant
                i <= j <= chars@.len(),
                chars@ == whole,
                spec_find_newline(whole.subrange(i as int, whole.len() as int)) == (j - i)
                    + spec_find_newline(whole.subrange(j as int, whole.len() as int)),
            decreases chars@.len() - j,
        {
            proof {
                assert(whole.subrange(j as int, whole.len() as int).drop_first() =~= whole.subrange(
                    j + 1 as int,
                    whole.len() as int,
                ));
            }
            j += 1;
        }
        proof {
            assert(spec_find_newline(rest) == j - i);
            lemma_find_newline_le_len(rest);
        }
        let line = copy_range(chars, i, j);
        proof {
            assert(line@ =~= rest.subrange(0, (j - i) as int));
        }
        proof {
            if j >= whole.len() {
                assert(spec_split_lines(rest) =~= seq![rest]);
                assert(rest =~= line@);
                assert(spec_split_lines(rest).drop_first() =~= Seq::<Seq<char>>::empty());
            } else {
                assert(rest.subrange((j - i) + 1 as int, rest.len() as int) =~= whole.subrange(
                    j + 1 as int,
                    whole.len() as int,
                ));
                assert(spec_split_lines(rest) =~= seq![line@] + spec_split_lines(
                    whole.subrange(j + 1 as int, whole.len() as int),
                ));
                assert(spec_split_lines(rest).drop_first() =~= spec_split_lines(
                    whole.subrange(j + 1 as int, whole.len() as int),
                ));
            }
            assert(spec_split_lines(rest)[0] == line@);
        }
        match parse_timed_line(&line) {
            Some((ts, text)) => {
                proof {
                    lemma_insert_timed_sorted(lines_view(acc@), ts, text@);
                }
                insert_timed(&mut acc, ts, text);
            },
            None => {},
        }
        if j < chars.len() {
            i = j + 1;
        } else {
            i = chars.len();
        }
    }
    proof {
        assert(whole.subrange(i as int, whole.len() as int) =~= Seq::<char>::empty());
    }
    acc
}

/// Folding lines into a timestamp-ordered accumulator keeps it ordered.
proof fn lemma_ingest_lines_sorted(lines: Seq<Seq<char>>, acc: Seq<(u32, Seq<char>)>)
    requires
        sorted_strict(keys_of(acc)),
    ensures
        sorted_strict(keys_of(spec_ingest_lines(lines, acc))),
    decreases lines.len(),
{
    if lines.len() > 0 {
        if let Some((ts, text)) = spec_parse_timed_line(lines[0]) {
            lemma_insert_timed_sorted(acc, ts, text);
        }
        lemma_ingest_lines_sorted(lines.drop_first(), spec_line_step(acc, lines[0]));
    }
}

/// For all time-coded lyric text: the derived timestamp sequence is strictly
/// ascending, and its length equals the number of distinct timestamps, so no
/// timestamp is duplicated or lost.
pub proof fn lemma_parse_lyrics_timestamps(text: Seq<char>)
    ensures
        sorted_strict(keys_of(spec_parse_lyrics(text))),
        keys_of(spec_parse_lyrics(text)).to_set().len() == keys_of(spec_parse_lyrics(text)).len(),
{
    assert(lines_view(Seq::<TimedLine>::empty()) =~= Seq::<(u32, Seq<char>)>::empty());
    lemma_ingest_lines_sorted(spec_split_lines(text), Seq::empty());
    let ks = keys_of(spec_parse_lyrics(text));
    assert(ks.no_duplicates()) by {
        assert forall|i: int, j: int| 0 <= i < ks.len() && 0 <= j < ks.len() && i != j implies ks[i]
            != ks[j] by {
            if i < j {
                assert(ks[i] < ks[j]);
            } else {
                assert(ks[j] < ks[i]);
            }
        }
    }
    ks.unique_seq_to_set();
}

/// The index of the line that is current at time `t`: the last line whose
/// timestamp has been reached, or none before the first timestamp.
pub open spec fn spec_active_line(ts: Seq<u32>, t: u32) -> Option<int>
    decreases ts.len(),
{
    if ts.len() == 0 {
        None
    } else if ts.last() <= t {
        Some(ts.len() - 1)
    } else {
        spec_active_line(ts.drop_last(), t)
    }
}

/// The active line has been reached and every later line has not; when there
/// is no active line, no line has been reached.
pub proof fn lemma_active_line_props(ts: Seq<u32>, t: u32)
    ensures
        match spec_active_line(ts, t) {
            Some(i) => 0 <= i < ts.len() && ts[i] <= t && forall|k: int|
                i < k < ts.len() ==> ts[k] > t,
            None => forall|k: int| 0 <= k < ts.len() ==> ts[k] > t,
        },
    decreases ts.len(),
{
    if ts.len() > 0 && !(ts.last() <= t) {
        let head = ts.drop_last();
        lemma_active_line_props(head, t);
        match spec_active_line(head, t) {
            Some(i) => {
                assert forall|k: int| i < k < ts.len() implies ts[k] > t by {
                    if k < ts.len() - 1 {
                        assert(head[k] > t);
                    }
                }
            },
            None => {
                assert forall|k: int| 0 <= k < ts.len() implies ts[k] > t by {
                    if k < ts.len() - 1 {
                        assert(head[k] > t);
                    }
                }
            },
        }
    }
}

/// The active line moves only forward as playback time advances.
pub proof fn lemma_active_line_monotonic(ts: Seq<u32>, t1: u32, t2: u32)
    requires
        t1 <= t2,
    ensures
        match (spec_active_line(ts, t1), spec_active_line(ts, t2)) {
            (Some(i1), Some(i2)) => i1 <= i2,
            (Some(i1), None) => false,
            _ => true,
        },
{
    lemma_active_line_props(ts, t1);
    lemma_active_line_props(ts, t2);
    if let Some(i1) = spec_active_line(ts, t1) {
        match spec_active_line(ts, t2) {
            Some(i2) => {
                if i2 < i1 {
                    assert(ts[i1] > t2);
                }
            },
            None => {
                assert(ts[i1] > t2);
            },
        }
    }
}

/// The last timed line whose timestamp is at or before `t`.
pub fn active_line(list: &Vec<TimedLine>, t: u32) -> (r: Option<usize>)
    ensures
        match r {
            Some(i) => Some(i as int) == spec_active_line(keys_of(lines_view(list@)), t),
            None => spec_active_line(keys_of(lines_view(list@)), t) is None,
        },
{
    let ghost ks = keys_of(lines_view(list@));
    proof {
        assert(ks.subrange(0, ks.len() as int) =~= ks);
    }
    let mut i = list.len();
    while i > 0
        invariant
            i <= list@.len(),
            ks == keys_of(lines_view(list@)),
            ks.len() == list@.len(),
            spec_active_line(ks, t) == spec_active_line(ks.subrange(0, i as int), t),
        decreases i,
    {
        proof {
            assert(ks[i - 1] == list@[i - 1].timestamp);
        }
        if list[i - 1].timestamp <= t {
            return Some(i - 1);
        }
        proof {
            assert(ks.subrange(0, i as int).drop_last() =~= ks.subrange(0, i - 1 as int));
        }
        i -= 1;
    }
    proof {
        assert(ks.subrange(0, 0) =~= Seq::<u32>::empty());
    }
    None
}

/// How one lyric line is highlighted at playback time `t`.
#[derive(Debug, Clone, Copy, PartialEq, Eq, Structural)]
pub enum LineStyle {
    /// The line being sung: reached, and the next line not yet reached.
    Current,
    /// Already sung: a later line has been reached.
    Sung,
    /// Not yet reached.
    Upcoming,
}

/// The highlight of line `i` at time `t`.
pub open spec fn spec_line_style(ts: Seq<u32>, i: int, t: u32) -> LineStyle {
    if ts[i] <= t {
        if i + 1 < ts.len() && ts[i + 1] <= t {
            LineStyle::Sung
        } else {
            LineStyle::Current
        }
    } else {
        LineStyle::Upcoming
    }
}

pub fn line_style(list: &Vec<TimedLine>, i: usize, t: u32) -> (r: LineStyle)
    requires
        i < list@.len(),
    ensures
        r == spec_line_style(keys_of(lines_view(list@)), i as int, t),
{
    proof {
        assert(keys_of(lines_view(list@))[i as int] == list@[i as int].timestamp);
        if i + 1 < list@.len() {
            assert(keys_of(lines_view(list@))[i + 1 as int] == list@[i + 1 as int].timestamp);
        }
    }
    let n = list.len();
    if list[i].timestamp <= t {
        if i < n - 1 && list[i + 1].timestamp <= t {
            LineStyle::Sung
        } else {
            LineStyle::Current
        }
    } else {
        LineStyle::Upcoming
    }
}

/// With sorted timestamps, the styles partition the lines around the active
/// one: every earlier line is already sung, the active line is current, and
/// every later line is upcoming.
pub proof fn lemma_line_styles_partition(ts: Seq<u32>, t: u32, k: int)
    requires
        sorted_strict(ts),
        0 <= k < ts.len(),
    ensures
        spec_line_style(ts, k, t) == (match spec_active_line(ts, t) {
            Some(i) => if k < i {
                LineStyle::Sung
            } else if k == i {
                LineStyle::Current
            } else {
                LineStyle::Upcoming
            },
            None => LineStyle::Upcoming,
        }),
{
    lemma_active_line_props(ts, t);
    match spec_active_line(ts, t) {
        Some(i) => {
            if k < i {
                assert(ts[k] < ts[i]);
                assert(k + 1 <= i);
                if k + 1 < i {
                    assert(ts[k + 1] < ts[i]);
                }
            }
        },
        None => {},
    }
}

/// The number of lines the text splits into.
pub fn count_lines(chars: &Vec<char>) -> (r: usize)
    ensures
        r == spec_split_lines(chars@).len(),
{
    let ghost whole = chars@;
    let mut count: usize = 0;
    let mut i: usize = 0;
    proof {
        assert(whole.subrange(0, whole.len() as int) =~= whole);
    }
    while i < chars.len()
        invariant
            i <= chars@.len(),
            count <= i,
            chars@ == whole,
            count + spec_split_lines(whole.subrange(i as int, whole.len() as int)).len()
                == spec_split_lines(whole).len(),
        decreases chars@.len() - i,
    {
        let ghost rest = whole.subrange(i as int, whole.len() as int);
        let mut j: usize = i;
        while j < chars.len() && chars[j] != '\n'
            invariant
                i <= j <= chars@.len(),
                chars@ == whole,
                spec_find_newline(whole.subrange(i as int, whole.len() as int)) == (j - i)
                    + spec_find_newline(whole.subrange(j as int, whole.len() as int)),
            decreases chars@.len() - j,
        {
            proof {
                assert(whole.subrange(j as int, whole.len() as int).drop_first() =~= whole.subrange(
                    j + 1 as int,
                    whole.len() as int,
                ));
            }
            j += 1;
        }
        proof {
            assert(spec_find_newline(rest) == j - i);
            lemma_find_newline_le_len(rest);
            if j >= whole.len() {
                assert(spec_split_lines(rest) =~= seq![rest]);
            } else {
                assert(rest.subrange((j - i) + 1 as int, rest.len() as int) =~= whole.subrange(
                    j + 1 as int,
                    whole.len() as int,
                ));
                assert(spec_split_lines(rest) =~= seq![rest.subrange(0, (j - i) as int)]
                    + spec_split_lines(whole.subrange(j + 1 as int, whole.len() as int)));
            }
        }
        count += 1;
        if j < chars.len() {
            i = j + 1;
        } else {
            i = chars.len();
            proof {
                assert(whole.subrange(i as int, whole.len() as int) =~= Seq::<char>::empty());
            }
        }
    }
    proof {
        assert(whole.subrange(i as int, whole.len() as int) =~= Seq::<char>::empty());
    }
    count
}

/// The timestamps of the timed lines, in order.
pub fn timestamps_vec(list: &Vec<TimedLine>) -> (r: Vec<u32>)
    ensures
        r@ == keys_of(lines_view(list@)),
{
    let mut r: Vec<u32> = Vec::new();
    let mut i: usize = 0;
    while i < list.len()
        invariant
            i <= list@.len(),
            r@.len() == i,
            forall|k: int| 0 <= k < i ==> r@[k] == list@[k].timestamp,
        decreases list@.len() - i,
    {
        r.push(list[i].timestamp);
        i += 1;
    }
    proof {
        assert(r@ =~= keys_of(lines_view(list@)));
    }
    r
}

/// A mouse event inside the terminal, reduced to what the lyric viewport
/// reacts to.
#[derive(Debug, Clone, Copy, PartialEq, Eq, Structural)]
pub enum MouseKind {
    /// The left button was pressed.
    DownLeft,
    /// The left button was released.
    UpLeft,
    /// The pointer moved with the left button held.
    DragLeft,
    /// Anything else.
    Other,
}

#[derive(Debug, Clone, Copy, PartialEq, Eq, Structural)]
pub struct MouseEvent {
    pub kind: MouseKind,
    pub column: u16,
    pub row: u16,
}

/// The manual scroll offset after a drag of `row - start` cells, clamped to
/// `[0, length]`.
pub open spec fn spec_scrolled_offset(offset: int, row: int, start: int, length: int) -> int {
    let moved = offset + row - start;
    if moved < 0 {
        0
    } else if moved > length {
        length
    } else {
        moved
    }
}

/// State of the lyric pane: the raw provider text, its parsed time index
/// when the provider marked it as time-coded, the manual scroll position,
/// and the drag gesture in progress.
pub struct LyricState {
    pub is_dragging: bool,
    pub drag_start: Option<u16>,
    pub active: bool,
    pub offset: usize,
    pub length: usize,
    pub area: Rect,
    pub lyrics: String,
    pub timed_lyrics: Option<Vec<TimedLine>>,
    pub ordered_timestamps: Option<Vec<u32>>,
    pub current_time: u32,
}

impl LyricState {
    /// The time index is well formed: the ordered timestamps are exactly the
    /// key sequence of the timestamp-to-text map, strictly ascending, and
    /// both sides are present or absent together.
    pub open spec fn wf(&self) -> bool {
        match (self.timed_lyrics, self.ordered_timestamps) {
            (Some(tl), Some(ts)) => ts@ == keys_of(lines_view(tl@)) && sorted_strict(ts@),
            (None, None) => true,
            _ => false,
        }
    }

    pub fn new() -> (r: LyricState)
        ensures
            r.wf(),
            r.is_dragging == false,
            r.drag_start is None,
            r.active == false,
            r.offset == 0,
            r.length == 0,
            r.lyrics@ == Seq::<char>::empty(),
            r.timed_lyrics is None,
            r.ordered_timestamps is None,
            r.current_time == 0,
    {
        LyricState {
            is_dragging: false,
            drag_start: None,
            active: false,
            offset: 0,
            length: 0,
            area: Rect { x: 0, y: 0, width: 0, height: 0 },
            lyrics: String::new(),
            timed_lyrics: None,
            ordered_timestamps: None,
            current_time: 0,
        }
    }

    /// Replaces the lyric text. Time-coded text is parsed into the time
    /// index and the scroll bound becomes the number of timed lines; plain
    /// text has no time index, and its line count becomes the scroll bound.
    pub fn update(&mut self, new_lyrics: String, is_synced: bool)
        requires
            old(self).wf(),
        ensures
            final(self).wf(),
            final(self).lyrics@ == new_lyrics@,
            is_synced ==> match final(self).timed_lyrics {
                Some(tl) => lines_view(tl@) == spec_parse_lyrics(new_lyrics@) && final(self).length
                    == tl@.len(),
                None => false,
            },
            !is_synced ==> final(self).timed_lyrics is None && final(self).ordered_timestamps
                is None && final(self).length == spec_split_lines(new_lyrics@).len(),
            final(self).offset == old(self).offset,
            final(self).active == old(self).active,
            final(self).current_time == old(self).current_time,
            final(self).is_dragging == old(self).is_dragging,
            final(self).area == old(self).area,
    {
        let cs = string_chars(new_lyrics.as_str());
        self.lyrics = new_lyrics;
        if is_synced {
            let timed = parse_lyrics(&cs);
            let ts = timestamps_vec(&timed);
            self.length = timed.len();
            proof {
                assert(keys_of(lines_view(timed@)).len() == timed@.len());
            }
            self.timed_lyrics = Some(timed);
            self.ordered_timestamps = Some(ts);
        } else {
            self.timed_lyrics = None;
            self.ordered_timestamps = None;
            self.length = count_lines(&cs);
        }
    }

    /// Clears the lyric text, the time index and the scroll position.
    pub fn reset_lyrics(&mut self)
        ensures
            final(self).wf(),
            final(self).timed_lyrics is None,
            final(self).ordered_timestamps is None,
            final(self).length == 0,
            final(self).lyrics@ == Seq::<char>::empty(),
            final(self).offset == 0,
            final(self).active == old(self).active,
            final(self).current_time == old(self).current_time,
    {
        self.timed_lyrics = None;
        self.ordered_timestamps = None;
        self.length = 0;
        self.lyrics = String::new();
        self.offset = 0;
    }

    pub fn update_time(&mut self, current_time: &u32)
        ensures
            *final(self) == (LyricState { current_time: *current_time, ..*old(self) }),
    {
        self.current_time = *current_time;
    }

    /// Applies one mouse event to the drag gesture: a press inside the
    /// viewport starts dragging, a release ends it, and a drag while
    /// dragging moves the offset by the vertical delta, clamped to
    /// `[0, length]`. The lyric text and time index are untouched.
    pub fn handle_scroll(&mut self, mouse: &MouseEvent)
        ensures
            final(self).lyrics == old(self).lyrics,
            final(self).timed_lyrics == old(self).timed_lyrics,
            final(self).ordered_timestamps == old(self).ordered_timestamps,
            final(self).length == old(self).length,
            final(self).area == old(self).area,
            final(self).active == old(self).active,
            final(self).current_time == old(self).current_time,
            match mouse.kind {
                MouseKind::DownLeft => {
                    &&& final(self).offset == old(self).offset
                    &&& if old(self).area.spec_contains(mouse.column, mouse.row) {
                        final(self).is_dragging == true && final(self).drag_start == Some(
                            mouse.row,
                        )
                    } else {
                        final(self).is_dragging == old(self).is_dragging && final(self).drag_start
                            == old(self).drag_start
                    }
                },
                MouseKind::UpLeft => {
                    &&& final(self).offset == old(self).offset
                    &&& final(self).is_dragging == false
                    &&& final(self).drag_start is None
                },
                MouseKind::DragLeft => {
                    &&& final(self).is_dragging == old(self).is_dragging
                    &&& final(self).drag_start == old(self).drag_start
                    &&& match old(self).drag_start {
                        Some(start) => if old(self).is_dragging {
                            final(self).offset == spec_scrolled_offset(
                                old(self).offset as int,
                                mouse.row as int,
                                start as int,
                                old(self).length as int,
                            )
                        } else {
                            final(self).offset == old(self).offset
                        },
                        None => final(self).offset == old(self).offset,
                    }
                },
                MouseKind::Other => *final(self) == *old(self),
            },
    {
        match mouse.kind {
            MouseKind::DownLeft => {
                if self.area.contains(mouse.column, mouse.row) {
                    self.is_dragging = true;
                    self.drag_start = Some(mouse.row);
                }
            },
            MouseKind::UpLeft => {
                self.is_dragging = false;
                self.drag_start = None;
            },
            MouseKind::DragLeft => {
                if self.is_dragging {
                    if let Some(start) = self.drag_start {
                        let moved = if mouse.row >= start {
                            self.offset.saturating_add((mouse.row - start) as usize)
                        } else {
                            let sub = (start - mouse.row) as usize;
                            if sub >= self.offset {
                                0
                            } else {
                                self.offset - sub
                            }
                        };
                        self.offset = if moved > self.length {
                            self.length
                        } else {
                            moved
                        };
                    }
                }
            },
            MouseKind::Other => {},
        }
    }
}

} // verus!
