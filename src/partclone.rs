//! The imager: where its binary is found, and the parser of the progress
//! lines that it writes to its error stream.

use vstd::prelude::*;
use vstd::string::*;
use crate::text::opt_view;
use crate::matching::{captures_all, group_or_empty, group_text, groups_view, regex_groups};
use crate::text::{chars_of, contains, has_prefix, has_substring, starts_with, sub_chars};

verus! {

/// Pattern of a progress report inside an imager line.
pub const PROGRESS_PATTERN: &'static str = r"Remaining:\s*(\d{2,}:\d{2}:\d{2}), Completed:\s*(\d{1,3}\.?\d?\d?)%,\s*R?a?t?e?:?\s*([0-9][^,]+)";

/// Pattern of a remaining duration, `HH:MM:SS`.
pub const DURATION_PATTERN: &'static str = r"^(\d{2,}):(\d{2}):(\d{2})$";

/// Number of imager lines kept for the failure log.
pub const LOG_TAIL: usize = 4;

/// The first three groups of a match, a missing one read as empty text.
pub open spec fn triple_of(m: Seq<Option<Seq<char>>>) -> (Seq<char>, Seq<char>, Seq<char>) {
    (group_or_empty(m, 0), group_or_empty(m, 1), group_or_empty(m, 2))
}

/// The first three groups of each match of `pattern` in `text`.
pub open spec fn pattern_triples(pattern: Seq<char>, text: Seq<char>) -> Seq<(Seq<char>, Seq<char>, Seq<char>)> {
    match regex_groups(pattern, text) {
        Some(ms) => ms.map_values(|m: Seq<Option<Seq<char>>>| triple_of(m)),
        None => Seq::empty(),
    }
}

/// The (remaining, percent, rate) groups of each progress match in a line.
pub open spec fn progress_matches(line: Seq<char>) -> Seq<(Seq<char>, Seq<char>, Seq<char>)> {
    pattern_triples(PROGRESS_PATTERN@, line)
}

/// The (hours, minutes, seconds) groups of each duration match in a text.
pub open spec fn duration_matches(text: Seq<char>) -> Seq<(Seq<char>, Seq<char>, Seq<char>)> {
    pattern_triples(DURATION_PATTERN@, text)
}

/// The first three groups of each match of `pattern` in `text`.
fn triples(pattern: &str, text: &str) -> (r: Vec<(String, String, String)>)
    ensures
        r@.len() == pattern_triples(pattern@, text@).len(),
        forall|i: int|
            0 <= i < r@.len() ==> (#[trigger] r@[i].0@, r@[i].1@, r@[i].2@) == pattern_triples(pattern@, text@)[i],
{
    let mut r: Vec<(String, String, String)> = Vec::new();
    match captures_all(pattern, text) {
        Some(ms) => {
            let ghost all = pattern_triples(pattern@, text@);
            let mut k: usize = 0;
            while k < ms.len()
                invariant
                    k <= ms@.len(),
                    all == pattern_triples(pattern@, text@),
                    regex_groups(pattern@, text@) == Some(groups_view(ms@)),
                    r@.len() == k,
                    forall|i: int| 0 <= i < k ==> (#[trigger] r@[i].0@, r@[i].1@, r@[i].2@) == all[i],
                decreases ms.len() - k,
            {
                let m = &ms[k];
                assert(groups_view(ms@)[k as int] == m@.map_values(|g: Option<String>| opt_view(g)));
                r.push((group_text(m, 0), group_text(m, 1), group_text(m, 2)));
                k = k + 1;
            }
        },
        None => {},
    }
    r
}

fn progress_captures(line: &str) -> (r: Vec<(String, String, String)>)
    ensures
        r@.len() == progress_matches(line@).len(),
        forall|i: int|
            0 <= i < r@.len() ==> (#[trigger] r@[i].0@, r@[i].1@, r@[i].2@) == progress_matches(line@)[i],
{
    triples(PROGRESS_PATTERN, line)
}

fn duration_captures(text: &str) -> (r: Vec<(String, String, String)>)
    ensures
        r@.len() == duration_matches(text@).len(),
        forall|i: int|
            0 <= i < r@.len() ==> (#[trigger] r@[i].0@, r@[i].1@, r@[i].2@) == duration_matches(text@)[i],
{
    triples(DURATION_PATTERN, text)
}

/// The value of a decimal digit character.
pub open spec fn digit_of(c: char) -> Option<nat> {
    if c == '0' { Some(0) } else if c == '1' { Some(1) } else if c == '2' { Some(2) }
    else if c == '3' { Some(3) } else if c == '4' { Some(4) } else if c == '5' { Some(5) }
    else if c == '6' { Some(6) } else if c == '7' { Some(7) } else if c == '8' { Some(8) }
    else if c == '9' { Some(9) } else { None }
}

pub open spec fn is_digit(c: char) -> bool {
    digit_of(c) is Some
}

pub open spec fn digit_value(c: char) -> nat {
    match digit_of(c) {
        Some(d) => d,
        None => 0,
    }
}

fn digit_char_value(c: char) -> (r: Option<u64>)
    ensures
        match digit_of(c) {
            Some(d) => r == Some(d as u64),
            None => r is None,
        },
{
    if c == '0' { Some(0) } else if c == '1' { Some(1) } else if c == '2' { Some(2) }
    else if c == '3' { Some(3) } else if c == '4' { Some(4) } else if c == '5' { Some(5) }
    else if c == '6' { Some(6) } else if c == '7' { Some(7) } else if c == '8' { Some(8) }
    else if c == '9' { Some(9) } else { None }
}

/// The value of a string of decimal digits.
pub open spec fn digits_value(s: Seq<char>) -> nat
    decreases s.len(),
{
    if s.len() == 0 {
        0
    } else {
        digits_value(s.drop_last()) * 10 + digit_value(s.last())
    }
}

pub open spec fn all_digits(s: Seq<char>) -> bool {
    forall|i: int| 0 <= i < s.len() ==> is_digit(#[trigger] s[i])
}

/// The value of a non-empty string of decimal digits.
pub open spec fn decimal_value(s: Seq<char>) -> Option<nat> {
    if s.len() > 0 && all_digits(s) {
        Some(digits_value(s))
    } else {
        None
    }
}

/// The value of decimal text that fits `bound`.
pub open spec fn bounded_decimal(s: Seq<char>, bound: nat) -> Option<nat> {
    match decimal_value(s) {
        Some(n) => if n <= bound { Some(n) } else { None },
        None => None,
    }
}

/// Parses decimal digits into a value no larger than `bound`.
pub fn parse_decimal(s: &Vec<char>, bound: u64) -> (r: Option<u64>)
    ensures
        match bounded_decimal(s@, bound as nat) {
            Some(n) => r == Some(n as u64),
            None => r is None,
        },
{
    if s.len() == 0 {
        return None;
    }
    let mut v: u64 = 0;
    let mut i: usize = 0;
    while i < s.len()
        invariant
            i <= s@.len(),
            s@.len() > 0,
            all_digits(s@.subrange(0, i as int)),
            v as nat == digits_value(s@.subrange(0, i as int)),
            v <= bound,
        decreases s.len() - i,
    {
        assert(s@.subrange(0, i + 1).drop_last() =~= s@.subrange(0, i as int));
        let d = match digit_char_value(s[i]) {
            Some(d) => d,
            None => {
                assert(!is_digit(s@[i as int]));
                return None;
            },
        };
        if v > bound / 10 || v * 10 > bound || d > bound - v * 10 {
            proof {
                lemma_digits_grow(s@, i as int);
            }
            return None;
        }
        v = v * 10 + d;
        i = i + 1;
    }
    assert(s@.subrange(0, s@.len() as int) =~= s@);
    Some(v)
}

/// Once a prefix of digits exceeds a bound, so does every longer prefix.
proof fn lemma_digits_grow(s: Seq<char>, i: int)
    requires
        0 <= i < s.len(),
    ensures
        digits_value(s.subrange(0, i + 1)) >= digits_value(s.subrange(0, i)) * 10,
        all_digits(s) ==> digits_value(s) >= digits_value(s.subrange(0, i + 1)),
    decreases s.len() - i,
{
    assert(s.subrange(0, i + 1).drop_last() =~= s.subrange(0, i));
    if all_digits(s) {
        if i + 1 < s.len() {
            lemma_digits_grow(s, i + 1);
        } else {
            assert(s.subrange(0, i + 1) =~= s);
        }
    }
}

/// Position of the first `.` in `t` at or after `i`.
pub open spec fn dot_from(t: Seq<char>, i: nat) -> Option<nat>
    decreases t.len() - i,
{
    if i >= t.len() {
        None
    } else if t[i as int] == '.' {
        Some(i)
    } else {
        dot_from(t, i + 1)
    }
}

/// Hundredths given by up to two fraction digits.
pub open spec fn fraction_hundredths(f: Seq<char>) -> Option<nat> {
    if f.len() == 0 {
        Some(0)
    } else if f.len() == 1 && is_digit(f[0]) {
        Some(digit_value(f[0]) * 10)
    } else if f.len() == 2 && all_digits(f) {
        Some(digits_value(f))
    } else {
        None
    }
}

/// A percentage such as `56.34` or `100` in hundredths of a percent, which
/// is also the completed fraction in ten-thousandths.
pub open spec fn percent_value(t: Seq<char>) -> Option<nat> {
    match dot_from(t, 0) {
        None => match decimal_value(t) {
            Some(a) => Some(a * 100),
            None => None,
        },
        Some(k) => match (decimal_value(t.subrange(0, k as int)), fraction_hundredths(t.subrange(k as int + 1, t.len() as int))) {
            (Some(a), Some(b)) => Some(a * 100 + b),
            _ => None,
        },
    }
}

/// `o`, where it does not exceed `bound`.
pub open spec fn within(o: Option<nat>, bound: nat) -> Option<nat> {
    match o {
        Some(n) => if n <= bound { Some(n) } else { None },
        None => None,
    }
}

proof fn lemma_dot_from_bound(t: Seq<char>, i: nat)
    ensures
        dot_from(t, i) matches Some(k) ==> i <= k < t.len(),
    decreases t.len() - i,
{
    if i < t.len() && t[i as int] != '.' {
        lemma_dot_from_bound(t, i + 1);
    }
}

fn find_dot(t: &Vec<char>) -> (r: Option<usize>)
    ensures
        match dot_from(t@, 0) {
            Some(k) => k < t@.len() && r == Some(k as usize),
            None => r is None,
        },
{
    proof {
        lemma_dot_from_bound(t@, 0);
    }
    let mut i: usize = 0;
    while i < t.len()
        invariant
            i <= t@.len(),
            dot_from(t@, 0) == dot_from(t@, i as nat),
        decreases t.len() - i,
    {
        if t[i] == '.' {
            return Some(i);
        }
        i = i + 1;
    }
    None
}

/// Parses a percentage into hundredths of a percent.
pub fn parse_percent(t: &Vec<char>) -> (r: Option<u64>)
    ensures
        match within(percent_value(t@), u64::MAX as nat) {
            Some(n) => r == Some(n as u64),
            None => r is None,
        },
{
    match find_dot(t) {
        None => match parse_decimal(t, u64::MAX) {
            Some(a) => a.checked_mul(100),
            None => {
                proof {
                    if let Some(a) = decimal_value(t@) {
                        assert(a * 100 > u64::MAX) by (nonlinear_arith)
                            requires a > u64::MAX;
                    }
                }
                None
            },
        },
        Some(k) => {
            let n = t.len();
            let whole = sub_chars(t, 0, k);
            let frac = sub_chars(t, k + 1, n);
            assert(dot_from(t@, 0) == Some(k as nat));
            assert(frac@ == t@.subrange(k as int + 1, t@.len() as int));
            assert(whole@ == t@.subrange(0, k as int));
            let b: u64 = if frac.len() == 0 {
                0
            } else if frac.len() <= 2 {
                match parse_decimal(&frac, 99) {
                    Some(v) => if frac.len() == 1 { v * 10 } else { v },
                    None => {
                        proof {
                            if frac@.len() == 2 && all_digits(frac@) {
                                lemma_two_digits(frac@);
                            }
                            if frac@.len() == 1 {
                                lemma_one_digit(frac@);
                            }
                        }
                        return None;
                    },
                }
            } else {
                return None;
            };
            proof {
                if frac@.len() == 1 {
                    lemma_one_digit(frac@);
                } else if frac@.len() == 2 {
                    lemma_two_digits(frac@);
                }
            }
            match parse_decimal(&whole, u64::MAX) {
                Some(a) => match a.checked_mul(100) {
                    Some(h) => h.checked_add(b),
                    None => None,
                },
                None => {
                    proof {
                        if let Some(a) = decimal_value(whole@) {
                            assert(a * 100 + b > u64::MAX) by (nonlinear_arith)
                                requires a > u64::MAX;
                        }
                    }
                    None
                },
            }
        },
    }
}

proof fn lemma_one_digit(f: Seq<char>)
    requires
        f.len() == 1,
    ensures
        all_digits(f) <==> is_digit(f[0]),
        digits_value(f) == digit_value(f[0]),
        digit_value(f[0]) <= 9,
{
    assert(f.drop_last() =~= Seq::<char>::empty());
    assert(f.last() == f[0]);
    assert(digits_value(f.drop_last()) == 0);
    assert(digit_value(f[0]) <= 9);
}

proof fn lemma_two_digits(f: Seq<char>)
    requires
        f.len() == 2,
        all_digits(f),
    ensures
        digits_value(f) <= 99,
        digits_value(f) == digit_value(f[0]) * 10 + digit_value(f[1]),
{
    assert(f.drop_last().drop_last() =~= Seq::<char>::empty());
    assert(is_digit(f[0]) && is_digit(f[1]));
    assert(f.drop_last()[0] == f[0]);
    assert(f.drop_last().last() == f[0]);
    assert(digits_value(f.drop_last().drop_last()) == 0);
    assert(digits_value(f.drop_last()) == digit_value(f[0]));
    assert(digit_value(f[0]) <= 9);
    assert(digit_value(f[1]) <= 9);
}

/// Seconds given by one `HH:MM:SS` match, each part parsed as an `i64`.
pub open spec fn hms_secs(c: (Seq<char>, Seq<char>, Seq<char>)) -> Option<int> {
    match (
        bounded_decimal(c.0, i64::MAX as nat),
        bounded_decimal(c.1, i64::MAX as nat),
        bounded_decimal(c.2, i64::MAX as nat),
    ) {
        (Some(h), Some(m), Some(s)) => Some((h * 3600 + m * 60 + s) as int),
        _ => None,
    }
}

/// The seconds of the last match whose parts all parse.
pub open spec fn duration_secs(caps: Seq<(Seq<char>, Seq<char>, Seq<char>)>) -> Option<int>
    decreases caps.len(),
{
    if caps.len() == 0 {
        None
    } else {
        match hms_secs(caps.last()) {
            Some(d) => Some(d),
            None => duration_secs(caps.drop_last()),
        }
    }
}

/// What one progress match reports: completed fraction in ten-thousandths,
/// rate text, and estimated finish; `None` where it cannot be read.
pub open spec fn capture_reading(cap: (Seq<char>, Seq<char>, Seq<char>), now: int) -> Option<(nat, Seq<char>, int)> {
    match duration_secs(duration_matches(cap.0)) {
        None => None,
        Some(d) => if now + d > i64::MAX {
            None
        } else {
            match within(percent_value(cap.1), u64::MAX as nat) {
                Some(c) => Some((c, cap.2, now + d)),
                None => None,
            }
        },
    }
}

/// The readings of the matches of a line up to the first unreadable one,
/// and whether there was one.
pub open spec fn line_readings(caps: Seq<(Seq<char>, Seq<char>, Seq<char>)>, now: int) -> (Seq<(nat, Seq<char>, int)>, bool)
    decreases caps.len(),
{
    if caps.len() == 0 {
        (Seq::empty(), false)
    } else {
        match capture_reading(caps[0], now) {
            None => (Seq::empty(), true),
            Some(r) => {
                let rest = line_readings(caps.drop_first(), now);
                (seq![r] + rest.0, rest.1)
            },
        }
    }
}

/// An event reported by the imager's progress stream.
#[derive(Debug)]
pub enum PartcloneStatus {
    /// Progress: `complete` in ten-thousandths (10000 is all), the rate as
    /// written, and the estimated finish in seconds since the epoch.
    Running { complete: u64, rate: String, estimated_finish: i64 },
    /// The image was written and flushed.
    Synced { finish: i64 },
    /// The stream ended without the flush being reported.
    Failed { finish: i64 },
}

/// `ev` is the progress event of reading `r`.
pub open spec fn is_reading(ev: PartcloneStatus, r: (nat, Seq<char>, int)) -> bool {
    match ev {
        PartcloneStatus::Running { complete, rate, estimated_finish } => complete == r.0 && rate@
            == r.1 && estimated_finish == r.2,
        _ => false,
    }
}

/// Reads the instant when a remaining `HH:MM:SS` ends, from `now`.
fn estimated_finish(remaining: &str, now: i64) -> (r: Option<i64>)
    ensures
        match duration_secs(duration_matches(remaining@)) {
            Some(d) => if now + d > i64::MAX {
                r is None
            } else {
                r matches Some(f) && f == now + d
            },
            None => r is None,
        },
{
    let caps = duration_captures(remaining);
    let ghost all = duration_matches(remaining@);
    let mut secs: Option<u128> = None;
    let mut k: usize = 0;
    while k < caps.len()
        invariant
            k <= caps@.len(),
            caps@.len() == all.len(),
            forall|i: int| 0 <= i < caps@.len() ==> (#[trigger] caps@[i].0@, caps@[i].1@, caps@[i].2@) == all[i],
            match duration_secs(all.subrange(0, k as int)) {
                Some(d) => 0 <= d < 0x1_0000_0000_0000_0000_0000_0000 && secs == Some(d as u128),
                None => secs is None,
            },
        decreases caps.len() - k,
    {
        let h = parse_decimal(&chars_of(caps[k].0.as_str()), i64::MAX as u64);
        let m = parse_decimal(&chars_of(caps[k].1.as_str()), i64::MAX as u64);
        let s = parse_decimal(&chars_of(caps[k].2.as_str()), i64::MAX as u64);
        assert((caps@[k as int].0@, caps@[k as int].1@, caps@[k as int].2@) == all[k as int]);
        assert(all.subrange(0, k + 1).drop_last() =~= all.subrange(0, k as int));
        assert(all.subrange(0, k + 1).last() == all[k as int]);
        match (h, m, s) {
            (Some(h), Some(m), Some(s)) => {
                secs = Some((h as u128) * 3600 + (m as u128) * 60 + (s as u128));
            },
            _ => {},
        }
        k = k + 1;
    }
    assert(all.subrange(0, k as int) =~= all);
    match secs {
        Some(d) => {
            if (now as i128) + (d as i128) > (i64::MAX as i128) {
                None
            } else {
                Some(((now as i128) + (d as i128)) as i64)
            }
        },
        None => None,
    }
}

/// The event of one progress match, where it can be read.
fn read_capture(cap: &(String, String, String), now: i64) -> (r: Option<PartcloneStatus>)
    ensures
        match capture_reading((cap.0@, cap.1@, cap.2@), now as int) {
            Some(rd) => r matches Some(ev) && is_reading(ev, rd),
            None => r is None,
        },
{
    let finish = match estimated_finish(cap.0.as_str(), now) {
        Some(f) => f,
        None => return None,
    };
    let complete = match parse_percent(&chars_of(cap.1.as_str())) {
        Some(c) => c,
        None => return None,
    };
    Some(PartcloneStatus::Running { complete, rate: cap.2.clone(), estimated_finish: finish })
}

/// The events of one progress line, and whether a match in it could not be
/// read, which ends the stream.
pub struct LineEvents {
    pub statuses: Vec<PartcloneStatus>,
    pub invalid: bool,
}

/// The texts of a list of lines.
pub open spec fn lines_view(v: Seq<String>) -> Seq<Seq<char>> {
    v.map_values(|s: String| s@)
}

/// The last lines kept once `lines` holds one line more than before.
pub open spec fn kept_tail(lines: Seq<Seq<char>>) -> Seq<Seq<char>> {
    if lines.len() > LOG_TAIL {
        lines.drop_first()
    } else {
        lines
    }
}

/// The line that opens the imager's main output.
pub open spec fn main_output_marker() -> Seq<char> {
    "File system:"@
}

/// The text that reports the final flush.
pub open spec fn synced_marker() -> Seq<char> {
    "Syncing... OK!"@
}

/// The state of the reader of one imager's progress stream.
pub struct OutputParser {
    /// The main output has begun.
    pub started_main_output: bool,
    /// The flush has been reported.
    pub synced: bool,
    /// The last lines read, for the failure log.
    pub tail: Vec<String>,
}

impl OutputParser {
    /// A reader that has seen nothing.
    pub fn new() -> (p: OutputParser)
        ensures
            !p.started_main_output,
            !p.synced,
            p.tail@.len() == 0,
    {
        OutputParser { started_main_output: false, synced: false, tail: Vec::new() }
    }

    /// Reads one line at instant `now`: lines before the main output are
    /// skipped until one opens it; in the main output, until the flush is
    /// reported, each progress match gives a `Running` event and the flush
    /// text marks the stream synced.
    pub fn read_line(&mut self, line: &str, now: i64) -> (r: LineEvents)
        ensures
            lines_view(final(self).tail@) == kept_tail(lines_view(old(self).tail@).push(line@)),
            !old(self).started_main_output ==> {
                &&& final(self).started_main_output == starts_with(line@, main_output_marker())
                &&& final(self).synced == old(self).synced
                &&& r.statuses@.len() == 0
                &&& !r.invalid
            },
            old(self).started_main_output && old(self).synced ==> {
                &&& final(self).started_main_output
                &&& final(self).synced
                &&& r.statuses@.len() == 0
                &&& !r.invalid
            },
            old(self).started_main_output && !old(self).synced ==> {
                let (rs, bad) = line_readings(progress_matches(line@), now as int);
                &&& final(self).started_main_output
                &&& r.invalid == bad
                &&& final(self).synced == (!bad && contains(line@, synced_marker()))
                &&& r.statuses@.len() == rs.len()
                &&& forall|k: int| 0 <= k < rs.len() ==> is_reading(#[trigger] r.statuses@[k], rs[k])
            },
    {
        self.tail.push(line.to_owned());
        if self.tail.len() > LOG_TAIL {
            self.tail.remove(0);
        }
        proof {
            let before = lines_view(old(self).tail@).push(line@);
            if before.len() > LOG_TAIL {
                assert(lines_view(self.tail@) =~= before.drop_first());
            } else {
                assert(lines_view(self.tail@) =~= before);
            }
        }
        let mut statuses: Vec<PartcloneStatus> = Vec::new();
        if !self.started_main_output {
            self.started_main_output = has_prefix(&chars_of(line), &chars_of("File system:"));
            return LineEvents { statuses, invalid: false };
        }
        if self.synced {
            return LineEvents { statuses, invalid: false };
        }
        let caps = progress_captures(line);
        let ghost all = progress_matches(line@);
        let mut k: usize = 0;
        assert(all.subrange(0, all.len() as int) =~= all);
        while k < caps.len()
            invariant
                k <= caps@.len(),
                all == progress_matches(line@),
                caps@.len() == all.len(),
                forall|i: int| 0 <= i < caps@.len() ==> (#[trigger] caps@[i].0@, caps@[i].1@, caps@[i].2@) == all[i],
                lines_view(self.tail@) == kept_tail(lines_view(old(self).tail@).push(line@)),
                self.started_main_output,
                old(self).started_main_output,
                !self.synced,
                !old(self).synced,
                statuses@.len() == k,
                line_readings(all, now as int) == ({
                    let rest = line_readings(all.subrange(k as int, all.len() as int), now as int);
                    (line_readings(all, now as int).0.subrange(0, k as int) + rest.0, rest.1)
                }),
                line_readings(all, now as int).0.len() >= k,
                forall|i: int| 0 <= i < k ==> is_reading(#[trigger] statuses@[i], line_readings(all, now as int).0[i]),
            decreases caps.len() - k,
        {
            let ghost rest = all.subrange(k as int, all.len() as int);
            assert(rest.drop_first() =~= all.subrange(k + 1, all.len() as int));
            assert(rest[0] == all[k as int]);
            assert((caps@[k as int].0@, caps@[k as int].1@, caps@[k as int].2@) == all[k as int]);
            match read_capture(&caps[k], now) {
                Some(ev) => {
                    statuses.push(ev);
                    proof {
                        let whole = line_readings(all, now as int).0;
                        let after = line_readings(all.subrange(k + 1, all.len() as int), now as int);
                        assert(whole.subrange(0, k + 1) =~= whole.subrange(0, k as int).push(whole[k as int]));
                        assert(whole =~= whole.subrange(0, k + 1) + after.0);
                    }
                    k = k + 1;
                },
                None => {
                    proof {
                        assert(capture_reading(rest[0], now as int) is None);
                        assert(line_readings(rest, now as int) == (Seq::<(nat, Seq<char>, int)>::empty(), true));
                        let whole = line_readings(all, now as int).0;
                        assert(whole =~= whole.subrange(0, k as int));
                    }
                    return LineEvents { statuses, invalid: true };
                },
            }
        }
        proof {
            assert(all.subrange(k as int, all.len() as int) =~= Seq::<(Seq<char>, Seq<char>, Seq<char>)>::empty());
            let whole = line_readings(all, now as int).0;
            assert(whole =~= whole.subrange(0, k as int));
        }
        if has_substring(&chars_of(line), &chars_of("Syncing... OK!")) {
            self.synced = true;
        }
        LineEvents { statuses, invalid: false }
    }

    /// The closing event when the stream ends at instant `now`: `Synced`
    /// where the flush was reported, `Failed` otherwise.
    pub fn finish(&self, now: i64) -> (r: PartcloneStatus)
        ensures
            self.synced ==> r == (PartcloneStatus::Synced { finish: now }),
            !self.synced ==> r == (PartcloneStatus::Failed { finish: now }),
    {
        if self.synced {
            PartcloneStatus::Synced { finish: now }
        } else {
            PartcloneStatus::Failed { finish: now }
        }
    }
}

/// The imager's variant for raw copies, which every installation has.
pub open spec fn dd_variant() -> Seq<char> {
    "dd"@
}

/// Where an imager installation is looked for, in order, when no override
/// is given.
pub open spec fn default_prefixes() -> Seq<Seq<char>> {
    seq![
        "/usr/bin/partclone"@,
        "/usr/sbin/partclone"@,
        "/bin/partclone"@,
        "/sbin/partclone"@,
        "/usr/local/partclone"@,
        "/usr/local/bin/partclone"@,
        "/usr/local/sbin/partclone"@,
    ]
}

/// The imager binary of a variant under a prefix.
pub open spec fn variant_path(prefix: Seq<char>, variant: Seq<char>) -> Seq<char> {
    prefix + "."@ + variant
}

/// Index of the first default prefix probed present.
pub open spec fn first_present(probed: Seq<bool>, i: nat) -> Option<nat>
    decreases default_prefixes().len() - i,
{
    if i >= default_prefixes().len() {
        None
    } else if i < probed.len() && probed[i as int] {
        Some(i)
    } else {
        first_present(probed, i + 1)
    }
}

/// The imager binary to use for `variant`: under the override prefix where
/// one is given, else under the first default prefix whose `dd` binary was
/// probed present.
pub open spec fn imager_candidate(variant: Seq<char>, override_prefix: Option<Seq<char>>, probed: Seq<bool>) -> Option<Seq<char>> {
    match override_prefix {
        Some(p) => Some(variant_path(p, variant)),
        None => match first_present(probed, 0) {
            Some(i) => Some(variant_path(default_prefixes()[i as int], variant)),
            None => None,
        },
    }
}

/// The default prefixes, in the order they are probed.
pub fn default_prefix_list() -> (r: Vec<&'static str>)
    ensures
        r@.len() == default_prefixes().len(),
        forall|i: int| 0 <= i < r@.len() ==> #[trigger] r@[i]@ == default_prefixes()[i],
{
    let r = vec![
        "/usr/bin/partclone",
        "/usr/sbin/partclone",
        "/bin/partclone",
        "/sbin/partclone",
        "/usr/local/partclone",
        "/usr/local/bin/partclone",
        "/usr/local/sbin/partclone",
    ];
    assert(r@.len() == 7);
    r
}

/// The path of the `variant` binary under `prefix`.
pub fn imager_path(prefix: &str, variant: &str) -> (r: String)
    ensures
        r@ == variant_path(prefix@, variant@),
{
    let mut r = String::from_str(prefix);
    r.append(".");
    r.append(variant);
    r
}

/// The imager binary to use for `variant`, given the override prefix and
/// which default prefixes (indexed as [`default_prefix_list`]) have their
/// `dd` binary present; `None` where no installation is known. Whether the
/// binary itself exists is for the caller to check.
pub fn cmd_candidate(variant: &str, override_prefix: Option<&str>, probed: &Vec<bool>) -> (r: Option<String>)
    ensures
        match imager_candidate(variant@, match override_prefix { Some(p) => Some(p@), None => None }, probed@) {
            Some(c) => r matches Some(s) && s@ == c,
            None => r is None,
        },
{
    match override_prefix {
        Some(p) => Some(imager_path(p, variant)),
        None => {
            let prefixes = default_prefix_list();
            let mut i: usize = 0;
            while i < prefixes.len()
                invariant
                    i <= prefixes@.len(),
                    override_prefix is None,
                    prefixes@.len() == default_prefixes().len(),
                    forall|j: int| 0 <= j < prefixes@.len() ==> #[trigger] prefixes@[j]@ == default_prefixes()[j],
                    first_present(probed@, 0) == first_present(probed@, i as nat),
                decreases prefixes.len() - i,
            {
                if i < probed.len() && probed[i] {
                    assert(first_present(probed@, i as nat) == Some(i as nat));
                    assert(prefixes@[i as int]@ == default_prefixes()[i as int]);
                    return Some(imager_path(prefixes[i], variant));
                }
                i = i + 1;
            }
            None
        },
    }
}

/// The variant a partition is cloned with: its filesystem type where the
/// imager for it was found, else `dd`.
pub fn clone_variant(fstype: Option<String>, imager_found: bool) -> (r: String)
    ensures
        match fstype {
            Some(f) => if imager_found { r@ == f@ } else { r@ == dd_variant() },
            None => r@ == dd_variant(),
        },
{
    match fstype {
        Some(f) => if imager_found { f } else { String::from_str("dd") },
        None => String::from_str("dd"),
    }
}

/// The imager's arguments for cloning `source` with `variant`: `-c` for a
/// filesystem variant, then `-s source`.
pub fn clone_args(variant: &str, source: &str) -> (r: Vec<String>)
    ensures
        variant@ != dd_variant() ==> r@.len() == 3 && r@[0]@ == "-c"@ && r@[1]@ == "-s"@ && r@[2]@ == source@,
        variant@ == dd_variant() ==> r@.len() == 2 && r@[0]@ == "-s"@ && r@[1]@ == source@,
{
    let mut r: Vec<String> = Vec::new();
    if !crate::text::same_text(variant, "dd") {
        r.push(String::from_str("-c"));
    }
    r.push(String::from_str("-s"));
    r.push(source.to_owned());
    r
}

/// The imager's arguments for restoring to `destination` with `variant`:
/// `-r` for a filesystem variant, then `-o destination`.
pub fn restore_args(variant: &str, destination: &str) -> (r: Vec<String>)
    ensures
        variant@ != dd_variant() ==> r@.len() == 3 && r@[0]@ == "-r"@ && r@[1]@ == "-o"@ && r@[2]@ == destination@,
        variant@ == dd_variant() ==> r@.len() == 2 && r@[0]@ == "-o"@ && r@[1]@ == destination@,
{
    let mut r: Vec<String> = Vec::new();
    if !crate::text::same_text(variant, "dd") {
        r.push(String::from_str("-r"));
    }
    r.push(String::from_str("-o"));
    r.push(destination.to_owned());
    r
}

} // verus!
