//! Which typed reads the driver gives up on, decided from the text in which
//! it shows a value for inspection.
//!
//! The driver converts a value of date and time when it is read under
//! another type, and gives up where the value is out of range: a date-time
//! whose nanoseconds since the epoch do not fit in sixty-four bits, when it
//! is read as an integer; a time of day whose nanoseconds or offset are no
//! time of day and no offset, when it is read as text; a date-time whose
//! seconds cannot be brought to universal time, under either. The text shows
//! the seconds, nanoseconds and offset of each such value as numerals. What
//! stands between double quotes is the content of a text and is passed over.

use crate::text::{chars_of, digit_of, digit_value, matches_at, occurs_at};
use vstd::prelude::*;

verus! {

/// The typed reads that can give up on a value.
#[derive(Debug, PartialEq, Eq)]
pub struct Risks {
    /// A read as an integer, or as a list of integers.
    pub numbers: bool,
    /// A read as text, or as a list of texts, or as a document.
    pub texts: bool,
}

/// No read gives up.
pub open spec fn no_risk() -> Risks {
    Risks { numbers: false, texts: false }
}

/// Every read may give up.
pub open spec fn every_risk() -> Risks {
    Risks { numbers: true, texts: true }
}

/// The risks of two values together.
pub open spec fn either(a: Risks, b: Risks) -> Risks {
    Risks { numbers: a.numbers || b.numbers, texts: a.texts || b.texts }
}

/// How a date-time with an offset begins, up to its seconds.
pub open spec fn instant_head() -> Seq<char> {
    "BoltDateTime { seconds: BoltInteger { value: "@
}

/// How a date-time without an offset begins, up to its seconds.
pub open spec fn local_instant_head() -> Seq<char> {
    "BoltLocalDateTime { seconds: BoltInteger { value: "@
}

/// How a time of day with an offset begins, up to its nanoseconds.
pub open spec fn clock_head() -> Seq<char> {
    "BoltTime { nanoseconds: BoltInteger { value: "@
}

/// How a time of day without an offset begins, up to its nanoseconds.
pub open spec fn local_clock_head() -> Seq<char> {
    "BoltLocalTime { nanoseconds: BoltInteger { value: "@
}

/// What stands between the seconds and the nanoseconds of a date-time.
pub open spec fn nanos_next() -> Seq<char> {
    " }, nanoseconds: BoltInteger { value: "@
}

/// What stands before the offset of a date-time or a time of day.
pub open spec fn offset_next() -> Seq<char> {
    " }, tz_offset_seconds: BoltInteger { value: "@
}

/// The numeral whose digits start at `k`, after digits of value `acc`: its
/// value and where it ends. None for a numeral of more than nineteen digits.
pub open spec fn numeral_from(t: Seq<char>, k: int, acc: int) -> Option<(int, int)>
    decreases t.len() - k,
{
    if 0 <= k < t.len() && digit_value(t[k]) >= 0 {
        if acc >= 1_000_000_000_000_000_000 {
            None
        } else {
            numeral_from(t, k + 1, acc * 10 + digit_value(t[k]))
        }
    } else {
        Some((acc, k))
    }
}

/// The number written at `i`, with or without a minus sign: its value and
/// where it ends.
pub open spec fn number_at(t: Seq<char>, i: int) -> Option<(int, int)> {
    let signed = 0 <= i < t.len() && t[i] == '-';
    let start = if signed {
        i + 1
    } else {
        i
    };
    if 0 <= start < t.len() && digit_value(t[start]) >= 0 {
        match numeral_from(t, start, 0) {
            Some((v, end)) => Some(
                (
                    if signed {
                        -v
                    } else {
                        v
                    },
                    end,
                ),
            ),
            None => None,
        }
    } else {
        None
    }
}

/// The number that follows `label` at `i`, and where it ends.
pub open spec fn field_at(t: Seq<char>, i: int, label: Seq<char>) -> Option<(int, int)> {
    if occurs_at(t, label, i) {
        number_at(t, i + label.len())
    } else {
        None
    }
}

/// The value fits in sixty-four bits, with a sign.
pub open spec fn fits(v: int) -> bool {
    -9_223_372_036_854_775_808 <= v <= 9_223_372_036_854_775_807
}

/// The low thirty-two bits of a value, as a number without a sign.
pub open spec fn low_word(v: int) -> int {
    (v + 18_446_744_073_709_551_616) % 4_294_967_296
}

/// The nanoseconds since the epoch, of a moment given in seconds and a
/// fraction, fit in sixty-four bits, computed as `chrono` does: from the
/// second after, for a moment before the epoch.
pub open spec fn nanos_fit(seconds: int, fraction: int) -> bool {
    if seconds < 0 {
        fits((seconds + 1) * 1_000_000_000) && fits(
            (seconds + 1) * 1_000_000_000 + fraction - 1_000_000_000,
        )
    } else {
        fits(seconds * 1_000_000_000) && fits(seconds * 1_000_000_000 + fraction)
    }
}

/// The nanoseconds since midnight are a time of day: no fraction of a second
/// before midnight, and less than a day of seconds in the low bits.
pub open spec fn is_time_of_day(n: int) -> bool {
    if n >= 0 {
        low_word(n / 1_000_000_000) < 86_400
    } else {
        (-n) % 1_000_000_000 == 0 && low_word(-((-n) / 1_000_000_000)) < 86_400
    }
}

/// The low bits of the seconds are an offset of less than a day, east or
/// west.
pub open spec fn is_offset(o: int) -> bool {
    let w = low_word(o + 2_147_483_648) - 2_147_483_648;
    -86_400 < w < 86_400
}

/// The risks of a date-time with an offset.
pub open spec fn instant_risks(seconds: int, nanos: int, offset: int) -> Risks {
    if !fits(seconds - offset) {
        every_risk()
    } else {
        Risks { numbers: !nanos_fit(seconds - offset, low_word(nanos)), texts: false }
    }
}

/// The risks of a date-time without an offset.
pub open spec fn local_instant_risks(seconds: int, nanos: int) -> Risks {
    Risks { numbers: !nanos_fit(seconds, low_word(nanos)), texts: false }
}

/// The risks of a time of day with an offset.
pub open spec fn clock_risks(nanos: int, offset: int) -> Risks {
    Risks { numbers: false, texts: !is_time_of_day(nanos) || !is_offset(offset) }
}

/// The risks of a time of day without an offset.
pub open spec fn local_clock_risks(nanos: int) -> Risks {
    Risks { numbers: false, texts: !is_time_of_day(nanos) }
}

/// The risks of a date-time with an offset that begins at `i`; every risk
/// where its numbers cannot be read.
pub open spec fn instant_at(t: Seq<char>, i: int) -> Risks {
    match field_at(t, i, instant_head()) {
        Some((seconds, a)) => match field_at(t, a, nanos_next()) {
            Some((nanos, b)) => match field_at(t, b, offset_next()) {
                Some((offset, c)) => instant_risks(seconds, nanos, offset),
                None => every_risk(),
            },
            None => every_risk(),
        },
        None => every_risk(),
    }
}

/// The risks of a date-time without an offset that begins at `i`.
pub open spec fn local_instant_at(t: Seq<char>, i: int) -> Risks {
    match field_at(t, i, local_instant_head()) {
        Some((seconds, a)) => match field_at(t, a, nanos_next()) {
            Some((nanos, b)) => local_instant_risks(seconds, nanos),
            None => every_risk(),
        },
        None => every_risk(),
    }
}

/// The risks of a time of day with an offset that begins at `i`.
pub open spec fn clock_at(t: Seq<char>, i: int) -> Risks {
    match field_at(t, i, clock_head()) {
        Some((nanos, a)) => match field_at(t, a, offset_next()) {
            Some((offset, b)) => clock_risks(nanos, offset),
            None => every_risk(),
        },
        None => every_risk(),
    }
}

/// The risks of a time of day without an offset that begins at `i`.
pub open spec fn local_clock_at(t: Seq<char>, i: int) -> Risks {
    match field_at(t, i, local_clock_head()) {
        Some((nanos, a)) => local_clock_risks(nanos),
        None => every_risk(),
    }
}

/// The risks of the value of date and time that begins at `i`, if one does.
pub open spec fn risks_at(t: Seq<char>, i: int) -> Risks {
    if occurs_at(t, instant_head(), i) {
        instant_at(t, i)
    } else if occurs_at(t, local_instant_head(), i) {
        local_instant_at(t, i)
    } else if occurs_at(t, clock_head(), i) {
        clock_at(t, i)
    } else if occurs_at(t, local_clock_head(), i) {
        local_clock_at(t, i)
    } else {
        no_risk()
    }
}

/// The risks of all that the text shows from `i` on. Within quotes a
/// backslash takes the next character with it, and the next quote closes.
pub open spec fn risks_from(t: Seq<char>, i: int, quoted: bool) -> Risks
    decreases t.len() - i,
{
    if i < 0 || i >= t.len() {
        no_risk()
    } else if quoted {
        if t[i] == '\\' && i + 1 < t.len() {
            risks_from(t, i + 2, true)
        } else if t[i] == '"' {
            risks_from(t, i + 1, false)
        } else {
            risks_from(t, i + 1, true)
        }
    } else if t[i] == '"' {
        risks_from(t, i + 1, true)
    } else {
        either(risks_at(t, i), risks_from(t, i + 1, false))
    }
}

/// The risks of all that the text shows.
pub open spec fn shape_risks(t: Seq<char>) -> Risks {
    risks_from(t, 0, false)
}

/// A number that was read, and where it ends.
struct Numeral {
    value: i128,
    end: usize,
}

/// The texts that the scan looks for, as characters.
struct Marks {
    instant: Vec<char>,
    local_instant: Vec<char>,
    clock: Vec<char>,
    local_clock: Vec<char>,
    nanos: Vec<char>,
    offset: Vec<char>,
}

impl Marks {
    spec fn well_formed(&self) -> bool {
        &&& self.instant@ == instant_head()
        &&& self.local_instant@ == local_instant_head()
        &&& self.clock@ == clock_head()
        &&& self.local_clock@ == local_clock_head()
        &&& self.nanos@ == nanos_next()
        &&& self.offset@ == offset_next()
    }

    fn new() -> (marks: Marks)
        ensures
            marks.well_formed(),
    {
        Marks {
            instant: chars_of("BoltDateTime { seconds: BoltInteger { value: "),
            local_instant: chars_of("BoltLocalDateTime { seconds: BoltInteger { value: "),
            clock: chars_of("BoltTime { nanoseconds: BoltInteger { value: "),
            local_clock: chars_of("BoltLocalTime { nanoseconds: BoltInteger { value: "),
            nanos: chars_of(" }, nanoseconds: BoltInteger { value: "),
            offset: chars_of(" }, tz_offset_seconds: BoltInteger { value: "),
        }
    }
}

/// Whether `mark` stands in `t` at `at`, wherever `at` is.
fn stands_at(t: &Vec<char>, mark: &Vec<char>, at: usize) -> (found: bool)
    ensures
        found == occurs_at(t@, mark@, at as int),
{
    if mark.len() > t.len() || at > t.len() - mark.len() {
        false
    } else {
        matches_at(t, mark, at)
    }
}

/// Reads the number written at `i`.
fn read_number(t: &Vec<char>, i: usize) -> (read: Option<Numeral>)
    ensures
        match read {
            Some(n) => number_at(t@, i as int) == Some((n.value as int, n.end as int))
                && n.end <= t@.len() && -10_000_000_000_000_000_000 < n.value
                < 10_000_000_000_000_000_000,
            None => number_at(t@, i as int) is None,
        },
{
    let len = t.len();
    let signed = i < len && t[i] == '-';
    let start: usize = if signed {
        i + 1
    } else {
        i
    };
    if start >= len {
        return None;
    }
    if digit_of(t[start]).is_none() {
        return None;
    }
    let mut acc: i128 = 0;
    let mut k: usize = start;
    loop
        invariant
            len == t@.len(),
            signed == (i < len && t@[i as int] == '-'),
            start == if signed {
                i + 1
            } else {
                i as int
            },
            start < len,
            digit_value(t@[start as int]) >= 0,
            start <= k <= len,
            0 <= acc < 10_000_000_000_000_000_000,
            numeral_from(t@, start as int, 0) == numeral_from(t@, k as int, acc as int),
        decreases len - k,
    {
        let digit = if k < len {
            digit_of(t[k])
        } else {
            None
        };
        match digit {
            Some(d) => {
                if acc >= 1_000_000_000_000_000_000 {
                    assert(numeral_from(t@, k as int, acc as int) is None);
                    return None;
                }
                let step: i128 = d as i128;
                acc = acc * 10 + step;
                k = k + 1;
            },
            None => {
                assert(numeral_from(t@, k as int, acc as int) == Some((acc as int, k as int)));
                let value: i128 = if signed {
                    -acc
                } else {
                    acc
                };
                return Some(Numeral { value, end: k });
            },
        }
    }
}

/// Reads the number that follows `label` at `i`.
fn read_field(t: &Vec<char>, i: usize, label: &Vec<char>) -> (read: Option<Numeral>)
    ensures
        match read {
            Some(n) => field_at(t@, i as int, label@) == Some((n.value as int, n.end as int))
                && n.end <= t@.len() && -10_000_000_000_000_000_000 < n.value
                < 10_000_000_000_000_000_000,
            None => field_at(t@, i as int, label@) is None,
        },
{
    let len = t.len();
    if stands_at(t, label, i) {
        assert(i + label@.len() <= len);
        read_number(t, i + label.len())
    } else {
        None
    }
}

/// The low thirty-two bits of a value.
fn low_bits(v: i128) -> (w: i128)
    requires
        -18_446_744_073_709_551_616 <= v < 18_446_744_073_709_551_616,
    ensures
        w == low_word(v as int),
        0 <= w < 4_294_967_296,
{
    (v + 18_446_744_073_709_551_616) % 4_294_967_296
}

/// Whether the value fits in sixty-four bits.
fn in_range(v: i128) -> (yes: bool)
    ensures
        yes == fits(v as int),
{
    -9_223_372_036_854_775_808 <= v && v <= 9_223_372_036_854_775_807
}

/// Whether the nanoseconds since the epoch fit in sixty-four bits.
fn nanos_in_range(seconds: i128, fraction: i128) -> (yes: bool)
    requires
        -20_000_000_000_000_000_000 < seconds < 20_000_000_000_000_000_000,
        0 <= fraction < 4_294_967_296,
    ensures
        yes == nanos_fit(seconds as int, fraction as int),
{
    if seconds < 0 {
        let whole: i128 = (seconds + 1) * 1_000_000_000;
        in_range(whole) && in_range(whole + fraction - 1_000_000_000)
    } else {
        let whole: i128 = seconds * 1_000_000_000;
        in_range(whole) && in_range(whole + fraction)
    }
}

/// Whether the nanoseconds since midnight are a time of day.
fn time_of_day(n: i128) -> (yes: bool)
    requires
        -10_000_000_000_000_000_000 < n < 10_000_000_000_000_000_000,
    ensures
        yes == is_time_of_day(n as int),
{
    if n >= 0 {
        low_bits(n / 1_000_000_000) < 86_400
    } else {
        let m: i128 = -n;
        m % 1_000_000_000 == 0 && low_bits(-(m / 1_000_000_000)) < 86_400
    }
}

/// Whether the low bits of the seconds are an offset.
fn offset_in_range(o: i128) -> (yes: bool)
    requires
        -10_000_000_000_000_000_000 < o < 10_000_000_000_000_000_000,
    ensures
        yes == is_offset(o as int),
{
    let w: i128 = low_bits(o + 2_147_483_648) - 2_147_483_648;
    -86_400 < w && w < 86_400
}

/// The risks of a date-time with an offset that begins at `i`.
fn read_instant(t: &Vec<char>, i: usize, marks: &Marks) -> (risks: Risks)
    requires
        marks.well_formed(),
    ensures
        risks == instant_at(t@, i as int),
{
    let every = Risks { numbers: true, texts: true };
    let seconds = match read_field(t, i, &marks.instant) {
        Some(n) => n,
        None => {
            return every;
        },
    };
    let nanos = match read_field(t, seconds.end, &marks.nanos) {
        Some(n) => n,
        None => {
            return every;
        },
    };
    let offset = match read_field(t, nanos.end, &marks.offset) {
        Some(n) => n,
        None => {
            return every;
        },
    };
    let universal: i128 = seconds.value - offset.value;
    if !in_range(universal) {
        every
    } else {
        Risks { numbers: !nanos_in_range(universal, low_bits(nanos.value)), texts: false }
    }
}

/// The risks of a date-time without an offset that begins at `i`.
fn read_local_instant(t: &Vec<char>, i: usize, marks: &Marks) -> (risks: Risks)
    requires
        marks.well_formed(),
    ensures
        risks == local_instant_at(t@, i as int),
{
    let every = Risks { numbers: true, texts: true };
    let seconds = match read_field(t, i, &marks.local_instant) {
        Some(n) => n,
        None => {
            return every;
        },
    };
    let nanos = match read_field(t, seconds.end, &marks.nanos) {
        Some(n) => n,
        None => {
            return every;
        },
    };
    Risks { numbers: !nanos_in_range(seconds.value, low_bits(nanos.value)), texts: false }
}

/// The risks of a time of day with an offset that begins at `i`.
fn read_clock(t: &Vec<char>, i: usize, marks: &Marks) -> (risks: Risks)
    requires
        marks.well_formed(),
    ensures
        risks == clock_at(t@, i as int),
{
    let every = Risks { numbers: true, texts: true };
    let nanos = match read_field(t, i, &marks.clock) {
        Some(n) => n,
        None => {
            return every;
        },
    };
    let offset = match read_field(t, nanos.end, &marks.offset) {
        Some(n) => n,
        None => {
            return every;
        },
    };
    Risks {
        numbers: false,
        texts: !time_of_day(nanos.value) || !offset_in_range(offset.value),
    }
}

/// The risks of a time of day without an offset that begins at `i`.
fn read_local_clock(t: &Vec<char>, i: usize, marks: &Marks) -> (risks: Risks)
    requires
        marks.well_formed(),
    ensures
        risks == local_clock_at(t@, i as int),
{
    match read_field(t, i, &marks.local_clock) {
        Some(nanos) => Risks { numbers: false, texts: !time_of_day(nanos.value) },
        None => Risks { numbers: true, texts: true },
    }
}

/// The risks of the value of date and time that begins at `i`, if one does.
fn read_at(t: &Vec<char>, i: usize, marks: &Marks) -> (risks: Risks)
    requires
        marks.well_formed(),
    ensures
        risks == risks_at(t@, i as int),
{
    if stands_at(t, &marks.instant, i) {
        read_instant(t, i, marks)
    } else if stands_at(t, &marks.local_instant, i) {
        read_local_instant(t, i, marks)
    } else if stands_at(t, &marks.clock, i) {
        read_clock(t, i, marks)
    } else if stands_at(t, &marks.local_clock, i) {
        read_local_clock(t, i, marks)
    } else {
        Risks { numbers: false, texts: false }
    }
}

/// The typed reads that can give up on the value that the text shows.
pub fn risks_of(shape: &str) -> (risks: Risks)
    ensures
        risks == shape_risks(shape@),
{
    let t = chars_of(shape);
    let marks = Marks::new();
    let len = t.len();
    let mut numbers = false;
    let mut texts = false;
    let mut quoted = false;
    let mut i: usize = 0;
    while i < len
        invariant
            marks.well_formed(),
            t@ == shape@,
            len == t@.len(),
            i <= len,
            shape_risks(shape@) == either(
                Risks { numbers, texts },
                risks_from(t@, i as int, quoted),
            ),
        decreases len - i,
    {
        let c = t[i];
        if quoted {
            if c == '\\' && i + 1 < len {
                i = i + 2;
            } else {
                if c == '"' {
                    quoted = false;
                }
                i = i + 1;
            }
        } else if c == '"' {
            quoted = true;
            i = i + 1;
        } else {
            let here = read_at(&t, i, &marks);
            numbers = numbers || here.numbers;
            texts = texts || here.texts;
            i = i + 1;
        }
    }
    Risks { numbers, texts }
}

} // verus!
