//! Calendar dates of events and the `YYYY-MM-DD` literal they are read from.

use crate::error::ErrorKind;
use vstd::prelude::*;

verus! {

/// The first year a date may lie in.
pub const MIN_YEAR: i32 = -262_143;

/// The last year a date may lie in.
pub const MAX_YEAR: i32 = 262_142;

/// The byte that separates the fields of a date literal.
pub const DASH: u8 = 0x2d;

/// The sign that may stand before the digits of a field.
pub const PLUS: u8 = 0x2b;

/// No field worth reading spells a number above this one.
const FIELD_LIMIT: u32 = 999_999;

/// Whether the year has a 29th of February.
pub open spec fn is_leap_year(year: int) -> bool {
    year % 4 == 0 && (year % 100 != 0 || year % 400 == 0)
}

/// The number of days of a month, for months 1 to 12.
pub open spec fn days_in_month(year: int, month: int) -> int {
    if month == 2 {
        if is_leap_year(year) {
            29
        } else {
            28
        }
    } else if month == 4 || month == 6 || month == 9 || month == 11 {
        30
    } else {
        31
    }
}

/// Whether the day exists in the proleptic Gregorian calendar, within the
/// years that a date can hold.
pub open spec fn is_calendar_date(year: int, month: int, day: int) -> bool {
    &&& MIN_YEAR <= year <= MAX_YEAR
    &&& 1 <= month <= 12
    &&& 1 <= day <= days_in_month(year, month)
}

/// A calendar date: year, month and day.
#[derive(Clone, Copy, Debug, PartialEq, Eq, Structural)]
pub struct EventDate {
    pub year: i32,
    pub month: u32,
    pub day: u32,
}

impl EventDate {
    /// The day exists.
    pub open spec fn wf(self) -> bool {
        is_calendar_date(self.year as int, self.month as int, self.day as int)
    }

    /// The date of the given year, month and day, if there is such a day.
    pub fn new(year: i32, month: u32, day: u32) -> (date: Option<EventDate>)
        ensures
            date == if is_calendar_date(year as int, month as int, day as int) {
                Some(EventDate { year, month, day })
            } else {
                None
            },
    {
        if calendar_day_exists(year, month, day) {
            Some(EventDate { year, month, day })
        } else {
            None
        }
    }
}

/// Calls chrono's `NaiveDate::from_ymd_opt` and reports whether it found a
/// date. Trusted: chrono returns a date exactly for the days of the proleptic
/// Gregorian calendar between its least and greatest year.
#[verifier::external_body]
fn calendar_day_exists(year: i32, month: u32, day: u32) -> (exists: bool)
    ensures
        exists == is_calendar_date(year as int, month as int, day as int),
{
    chrono::NaiveDate::from_ymd_opt(year, month, day).is_some()
}

/// Whether the byte is one of the ASCII digits `0` to `9`.
pub open spec fn is_digit(b: u8) -> bool {
    0x30 <= b <= 0x39
}

/// Whether every byte is a digit.
pub open spec fn all_digits(s: Seq<u8>) -> bool {
    forall|i: int| 0 <= i < s.len() ==> is_digit(#[trigger] s[i])
}

/// The number that a run of decimal digits spells.
pub open spec fn digits_value(s: Seq<u8>) -> nat
    decreases s.len(),
{
    if s.len() == 0 {
        0
    } else {
        (digits_value(s.drop_last()) * 10 + (s.last() - 0x30)) as nat
    }
}

/// The digits of a field: the field without its leading `+`, if it has one.
pub open spec fn field_digits(field: Seq<u8>) -> Seq<u8> {
    if field.len() > 0 && field[0] == PLUS {
        field.drop_first()
    } else {
        field
    }
}

/// The number that a field spells: an optional `+`, then one or more decimal
/// digits. Anything else spells no number.
pub open spec fn field_value(field: Seq<u8>) -> Option<nat> {
    let digits = field_digits(field);
    if digits.len() > 0 && all_digits(digits) {
        Some(digits_value(digits))
    } else {
        None
    }
}

/// Where the field that starts at `from` ends: at the next `-`, or at the end
/// of the text.
pub open spec fn field_end(text: Seq<u8>, from: int) -> int
    decreases text.len() - from,
{
    if from >= text.len() {
        text.len() as int
    } else if text[from] == DASH {
        from
    } else {
        field_end(text, from + 1)
    }
}

/// The date that three numbers name, if each field spelled a number and the
/// day exists.
pub open spec fn date_of_fields(year: Option<nat>, month: Option<nat>, day: Option<nat>) -> Option<
    EventDate,
> {
    match (year, month, day) {
        (Some(y), Some(m), Some(d)) => if is_calendar_date(y as int, m as int, d as int) {
            Some(EventDate { year: y as i32, month: m as u32, day: d as u32 })
        } else {
            None
        },
        _ => None,
    }
}

/// The date that a literal denotes: exactly three fields separated by `-`,
/// each spelling a number, which together name a day that exists.
pub open spec fn parsed_date(text: Seq<u8>) -> Option<EventDate> {
    let i = field_end(text, 0);
    let j = field_end(text, i + 1);
    let k = field_end(text, j + 1);
    if i < text.len() && j < text.len() && k == text.len() {
        date_of_fields(
            field_value(text.subrange(0, i)),
            field_value(text.subrange(i + 1, j)),
            field_value(text.subrange(j + 1, k)),
        )
    } else {
        None
    }
}

/// No byte of the field is a `-`.
pub open spec fn dash_free(field: Seq<u8>) -> bool {
    forall|i: int| 0 <= i < field.len() ==> #[trigger] field[i] != DASH
}

/// Three fields written one after the other with a `-` between them.
pub open spec fn joined(year: Seq<u8>, month: Seq<u8>, day: Seq<u8>) -> Seq<u8> {
    year + seq![DASH] + month + seq![DASH] + day
}

/// The date that a string denotes, read from its bytes.
pub open spec fn date_of(text: Seq<char>) -> Option<EventDate> {
    parsed_date(vstd::utf8::encode_utf8(text))
}

/// What `scan_field` reports of a field's number: the number itself while it
/// stays within `FIELD_LIMIT`, nothing otherwise.
spec fn within_limit(value: Option<nat>) -> Option<u32> {
    match value {
        Some(v) => if v <= FIELD_LIMIT {
            Some(v as u32)
        } else {
            None
        },
        None => None,
    }
}

proof fn lemma_digits_value_push(s: Seq<u8>, b: u8)
    requires
        is_digit(b),
    ensures
        digits_value(s.push(b)) == digits_value(s) * 10 + (b - 0x30),
        digits_value(s.push(b)) >= digits_value(s),
{
    assert(s.push(b).drop_last() =~= s);
    assert(s.push(b).last() == b);
}

proof fn lemma_field_end_is(text: Seq<u8>, from: int, end: int)
    requires
        0 <= from <= end <= text.len(),
        forall|k: int| from <= k < end ==> #[trigger] text[k] != DASH,
        end == text.len() || text[end] == DASH,
    ensures
        field_end(text, from) == end,
    decreases end - from,
{
    if from < end {
        lemma_field_end_is(text, from + 1, end);
    }
}

proof fn lemma_field_end_bounds(text: Seq<u8>, from: int)
    requires
        0 <= from <= text.len(),
    ensures
        from <= field_end(text, from) <= text.len(),
        forall|k: int| from <= k < field_end(text, from) ==> #[trigger] text[k] != DASH,
        field_end(text, from) < text.len() ==> text[field_end(text, from)] == DASH,
    decreases text.len() - from,
{
    if from < text.len() && text[from] != DASH {
        lemma_field_end_bounds(text, from + 1);
    }
}

/// Three fields without a `-` in them, joined by `-`, denote the date that
/// their numbers name.
pub proof fn joined_fields_denote_their_date(year: Seq<u8>, month: Seq<u8>, day: Seq<u8>)
    requires
        dash_free(year),
        dash_free(month),
        dash_free(day),
    ensures
        parsed_date(joined(year, month, day)) == date_of_fields(
            field_value(year),
            field_value(month),
            field_value(day),
        ),
{
    let text = joined(year, month, day);
    let i = year.len() as int;
    let j = i + 1 + month.len();
    let k = text.len() as int;
    assert(k == j + 1 + day.len());
    assert(text[i] == DASH);
    assert(text[j] == DASH);
    assert forall|n: int| 0 <= n < i implies #[trigger] text[n] != DASH by {
        assert(text[n] == year[n]);
    }
    assert forall|n: int| i + 1 <= n < j implies #[trigger] text[n] != DASH by {
        assert(text[n] == month[n - i - 1]);
    }
    assert forall|n: int| j + 1 <= n < k implies #[trigger] text[n] != DASH by {
        assert(text[n] == day[n - j - 1]);
    }
    lemma_field_end_is(text, 0, i);
    lemma_field_end_is(text, i + 1, j);
    lemma_field_end_is(text, j + 1, k);
    assert(text.subrange(0, i) =~= year);
    assert(text.subrange(i + 1, j) =~= month);
    assert(text.subrange(j + 1, k) =~= day);
}

/// A text that denotes a date is three fields without a `-` in them, joined
/// by `-`.
pub proof fn dated_text_is_three_fields(text: Seq<u8>)
    requires
        parsed_date(text) is Some,
    ensures
        ({
            let i = field_end(text, 0);
            let j = field_end(text, i + 1);
            let year = text.subrange(0, i);
            let month = text.subrange(i + 1, j);
            let day = text.subrange(j + 1, text.len() as int);
            &&& 0 <= i < j < text.len()
            &&& text == joined(year, month, day)
            &&& dash_free(year)
            &&& dash_free(month)
            &&& dash_free(day)
        }),
{
    let i = field_end(text, 0);
    lemma_field_end_bounds(text, 0);
    let j = field_end(text, i + 1);
    lemma_field_end_bounds(text, i + 1);
    lemma_field_end_bounds(text, j + 1);
    let year = text.subrange(0, i);
    let month = text.subrange(i + 1, j);
    let day = text.subrange(j + 1, text.len() as int);
    assert(text =~= joined(year, month, day));
}

/// Every date that a literal denotes is a day that exists.
pub proof fn denoted_date_exists(text: Seq<u8>)
    ensures
        parsed_date(text) matches Some(date) ==> date.wf(),
{
}

/// A text of ASCII characters is read character by character: its bytes are
/// its characters.
pub proof fn ascii_text_is_read_by_characters(text: Seq<char>)
    requires
        vstd::utf8::is_ascii_chars(text),
    ensures
        date_of(text) == parsed_date(Seq::new(text.len(), |i: int| text[i] as u8)),
{
    vstd::utf8::is_ascii_chars_encode_utf8(text);
    assert(vstd::utf8::encode_utf8(text) =~= Seq::new(text.len(), |i: int| text[i] as u8));
}

/// Reads the field that starts at `from`: where it ends, and the number it
/// spells if that number is at most `FIELD_LIMIT`.
fn scan_field(bytes: &[u8], from: usize) -> (found: (usize, Option<u32>))
    requires
        from <= bytes@.len(),
    ensures
        found.0 == field_end(bytes@, from as int),
        from <= found.0 <= bytes@.len(),
        found.1 == within_limit(field_value(bytes@.subrange(from as int, found.0 as int))),
{
    let n: usize = bytes.len();
    let start: usize = if from < n && bytes[from] == PLUS {
        from + 1
    } else {
        from
    };
    let mut i: usize = start;
    let mut value: u32 = 0;
    let mut numeric: bool = true;
    let mut large: bool = false;
    let ghost text = bytes@;
    let ghost mut bad: int = 0;
    while i < n && bytes[i] != DASH
        invariant
            n == text.len(),
            text == bytes@,
            from <= start <= i <= n,
            start == from || (start == from + 1 && text[from as int] == PLUS),
            start == from && from < n ==> text[from as int] != PLUS,
            field_end(text, from as int) == field_end(text, i as int),
            numeric ==> all_digits(text.subrange(start as int, i as int)),
            !numeric ==> start <= bad < i && !is_digit(text[bad]),
            numeric && !large ==> value == digits_value(text.subrange(start as int, i as int))
                && value <= FIELD_LIMIT,
            numeric && large ==> digits_value(text.subrange(start as int, i as int)) > FIELD_LIMIT,
        decreases n - i,
    {
        let b: u8 = bytes[i];
        proof {
            assert(text.subrange(start as int, i as int + 1) =~= text.subrange(
                start as int,
                i as int,
            ).push(b));
        }
        if !(0x30 <= b && b <= 0x39) {
            if numeric {
                proof {
                    bad = i as int;
                }
            }
            numeric = false;
        } else if numeric {
            proof {
                lemma_digits_value_push(text.subrange(start as int, i as int), b);
                assert forall|k: int|
                    0 <= k < text.subrange(start as int, i as int + 1).len() implies is_digit(
                    #[trigger] text.subrange(start as int, i as int + 1)[k],
                ) by {
                    if k < i - start {
                        assert(text.subrange(start as int, i as int)[k] == text[start + k]);
                    }
                }
            }
            if !large {
                let next: u32 = value * 10 + (b - 0x30) as u32;
                if next > FIELD_LIMIT {
                    large = true;
                } else {
                    value = next;
                }
            }
        }
        i = i + 1;
    }
    proof {
        let field = text.subrange(from as int, i as int);
        let digits = text.subrange(start as int, i as int);
        assert(field_digits(field) =~= digits);
        if !numeric {
            assert(digits[bad - start] == text[bad]);
        }
    }
    if numeric && !large && i > start {
        (i, Some(value))
    } else {
        (i, None)
    }
}

/// Reads a date from a `YYYY-MM-DD` literal: three fields separated by `-`,
/// each an optional `+` and one or more decimal digits, naming a day that
/// exists. Every other text is rejected as a validation error.
pub fn parse_event_date(text: &str) -> (date: Result<EventDate, ErrorKind>)
    ensures
        date == match date_of(text@) {
            Some(d) => Ok::<EventDate, ErrorKind>(d),
            None => Err(ErrorKind::ValidationError),
        },
        date matches Ok(d) ==> d.wf(),
{
    let bytes = text.as_bytes();
    let n: usize = bytes.len();
    let (i, year) = scan_field(bytes, 0);
    if i >= n {
        return Err(ErrorKind::ValidationError);
    }
    let (j, month) = scan_field(bytes, i + 1);
    if j >= n {
        return Err(ErrorKind::ValidationError);
    }
    let (k, day) = scan_field(bytes, j + 1);
    if k < n {
        return Err(ErrorKind::ValidationError);
    }
    match (year, month, day) {
        (Some(y), Some(m), Some(d)) => {
            if calendar_day_exists(y as i32, m, d) {
                Ok(EventDate { year: y as i32, month: m, day: d })
            } else {
                Err(ErrorKind::ValidationError)
            }
        },
        _ => Err(ErrorKind::ValidationError),
    }
}

} // verus!
