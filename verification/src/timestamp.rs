//! The timestamp of the current moment at a given offset, in the fixed layout
//! `YYYY-MM-DDTHH:MM:SS±HH:MM`.
use vstd::prelude::*;
use vstd::string::*;
use crate::digits::{four_digits, lemma_two_digits_are_digits, push_two, two_digits};
use crate::error::Error;
use crate::offset::{pair_fault, valid_pair, UtcOffset};
use crate::parse::{digit_value, is_digit, offset_fields};

verus! {

/// A date and a time of day as a wall clock shows them.
#[derive(Debug, Clone, Copy, PartialEq, Eq, Structural)]
pub struct CivilTime {
    pub year: i32,
    pub month: u8,
    pub day: u8,
    pub hour: u8,
    pub minute: u8,
    pub second: u8,
}

impl CivilTime {
    /// Whether every field but the year is one that a calendar and a clock show.
    pub open spec fn wf(&self) -> bool {
        &&& 1 <= self.month <= 12
        &&& 1 <= self.day <= 31
        &&& self.hour <= 23
        &&& self.minute <= 59
        &&& self.second <= 59
    }

    /// Whether the layout has room for this value: it is well formed and its
    /// year has no more than four digits and no sign.
    pub open spec fn fits_layout(&self) -> bool {
        self.wf() && 0 <= self.year <= 9999
    }
}

/// The six characters that show the offset of `hours` and `minutes`: sign,
/// hours without it, colon, minutes.
pub open spec fn marker_of(hours: int, minutes: int) -> Seq<char> {
    if hours < 0 {
        seq!['-'] + two_digits(-hours) + seq![':'] + two_digits(minutes)
    } else {
        seq!['+'] + two_digits(hours) + seq![':'] + two_digits(minutes)
    }
}

/// The six characters that show `offset`.
pub open spec fn offset_marker(offset: UtcOffset) -> Seq<char> {
    marker_of(offset.spec_hours(), offset.spec_minutes())
}

/// The date of `civil`: year, month and day with hyphens between.
pub open spec fn date_part(civil: CivilTime) -> Seq<char> {
    four_digits(civil.year as int) + seq!['-'] + two_digits(civil.month as int) + seq!['-']
        + two_digits(civil.day as int)
}

/// The time of day of `civil`: hour, minute and second with colons between.
pub open spec fn clock_part(civil: CivilTime) -> Seq<char> {
    two_digits(civil.hour as int) + seq![':'] + two_digits(civil.minute as int) + seq![':']
        + two_digits(civil.second as int)
}

/// The timestamp of the wall clock time `civil` at `offset`.
pub open spec fn rendered(civil: CivilTime, offset: UtcOffset) -> Seq<char> {
    date_part(civil) + seq!['T'] + clock_part(civil) + offset_marker(offset)
}

/// Whether `s` has the layout of a timestamp: digits, separators and a sign,
/// each in its place, twenty-five characters in all.
pub open spec fn has_layout(s: Seq<char>) -> bool {
    &&& s.len() == 25
    &&& is_digit(s[0]) && is_digit(s[1]) && is_digit(s[2]) && is_digit(s[3])
    &&& s[4] == '-'
    &&& is_digit(s[5]) && is_digit(s[6])
    &&& s[7] == '-'
    &&& is_digit(s[8]) && is_digit(s[9])
    &&& s[10] == 'T'
    &&& is_digit(s[11]) && is_digit(s[12])
    &&& s[13] == ':'
    &&& is_digit(s[14]) && is_digit(s[15])
    &&& s[16] == ':'
    &&& is_digit(s[17]) && is_digit(s[18])
    &&& (s[19] == '+' || s[19] == '-')
    &&& is_digit(s[20]) && is_digit(s[21])
    &&& s[22] == ':'
    &&& is_digit(s[23]) && is_digit(s[24])
}

/// The wall clock fields of the moment `shift_minutes` minutes after the
/// moment `unix_seconds` seconds after the start of 1970 in UTC, or nothing
/// where one of the two moments lies beyond the dates that `time` can hold.
pub uninterp spec fn civil_shifted(unix_seconds: i64, shift_minutes: i16) -> Option<CivilTime>;

/// What the timestamp of the moment `now_unix` at `offset` is: the wall clock
/// of UTC moved by the whole offset, minutes included, and rendered;
/// `DatetimeOverflow` where the move leaves the dates that can be held,
/// `TimeFormat` where the layout has no room for the date.
pub open spec fn timestamp_at(now_unix: i64, offset: UtcOffset) -> Result<Seq<char>, Error> {
    match civil_shifted(now_unix, offset.total_minutes() as i16) {
        Some(civil) => if civil.fits_layout() {
            Ok(rendered(civil, offset))
        } else {
            Err(Error::TimeFormat)
        },
        None => Err(Error::DatetimeOverflow),
    }
}

/// Calls `OffsetDateTime::now_utc` of `time` and `unix_timestamp` on what it
/// gives: the current moment by the system clock, in whole seconds since the
/// start of 1970, the fraction dropped. Nothing is claimed of it.
#[verifier::external_body]
fn now_unix() -> (seconds: i64) {
    time::OffsetDateTime::now_utc().unix_timestamp()
}

/// Makes the moment `unix_seconds` by `OffsetDateTime::from_unix_timestamp` of
/// `time`, moves it by `OffsetDateTime::checked_add` with a duration of
/// `shift_minutes` minutes, made by `Duration::minutes`, and reads the moved
/// moment's fields with the getters `year`, `month`, `day`, `hour`, `minute`
/// and `second`, the month as its number from 1 to 12. Where the first or the
/// second call refuses, there is no result. The contract gives the result its
/// name, as it depends on the two numbers alone, and claims the ranges that
/// `time` documents for the fields.
#[verifier::external_body]
fn civil_after(unix_seconds: i64, shift_minutes: i16) -> (res: Option<CivilTime>)
    ensures
        res == civil_shifted(unix_seconds, shift_minutes),
        res matches Some(civil) ==> civil.wf(),
{
    let at = time::OffsetDateTime::from_unix_timestamp(unix_seconds).ok()?;
    let moved = at.checked_add(time::Duration::minutes(i64::from(shift_minutes)))?;
    Some(CivilTime {
        year: moved.year(),
        month: u8::from(moved.month()),
        day: moved.day(),
        hour: moved.hour(),
        minute: moved.minute(),
        second: moved.second(),
    })
}

/// Adds one of the layout's separators or signs to `text`.
fn push_mark(text: &mut String, mark: char)
    requires
        mark == '-' || mark == ':' || mark == 'T' || mark == '+',
    ensures
        final(text)@ == old(text)@ + seq![mark],
{
    proof {
        reveal_strlit("-");
        reveal_strlit(":");
        reveal_strlit("T");
        reveal_strlit("+");
    }
    let piece: &'static str = if mark == '-' {
        "-"
    } else if mark == ':' {
        ":"
    } else if mark == 'T' {
        "T"
    } else {
        "+"
    };
    assert(piece@ =~= seq![mark]);
    text.append(piece);
}

/// Writes `civil` and `offset` in the layout `YYYY-MM-DDTHH:MM:SS±HH:MM`. A
/// value that the layout has no room for is refused.
pub fn format_timestamp(civil: &CivilTime, offset: UtcOffset) -> (res: Result<String, Error>)
    ensures
        match res {
            Ok(text) => civil.fits_layout() && text@ == rendered(*civil, offset) && has_layout(
                text@,
            ),
            Err(e) => !civil.fits_layout() && e == Error::TimeFormat,
        },
{
    if civil.year < 0 || civil.year > 9999 || civil.month < 1 || civil.month > 12 || civil.day < 1
        || civil.day > 31 || civil.hour > 23 || civil.minute > 59 || civil.second > 59 {
        return Err(Error::TimeFormat);
    }
    let hours: i8 = offset.hours();
    let minutes: i8 = offset.minutes();
    let year: u16 = civil.year as u16;
    let mut text: String = String::new();
    push_two(&mut text, (year / 100) as u8);
    push_two(&mut text, (year % 100) as u8);
    push_mark(&mut text, '-');
    push_two(&mut text, civil.month);
    push_mark(&mut text, '-');
    push_two(&mut text, civil.day);
    assert(text@ =~= date_part(*civil));
    push_mark(&mut text, 'T');
    push_two(&mut text, civil.hour);
    push_mark(&mut text, ':');
    push_two(&mut text, civil.minute);
    push_mark(&mut text, ':');
    push_two(&mut text, civil.second);
    assert(text@ =~= date_part(*civil) + seq!['T'] + clock_part(*civil));
    if hours < 0 {
        push_mark(&mut text, '-');
        push_two(&mut text, (-hours) as u8);
    } else {
        push_mark(&mut text, '+');
        push_two(&mut text, hours as u8);
    }
    push_mark(&mut text, ':');
    push_two(&mut text, minutes as u8);
    proof {
        assert(text@ =~= rendered(*civil, offset));
        lemma_rendered_layout(*civil, offset);
    }
    Ok(text)
}

/// The timestamp at `offset` of a moment whose move by that offset ended in
/// `moved`: `DatetimeOverflow` where the move left the dates that can be held,
/// else what `format_timestamp` makes of the wall clock fields.
pub fn timestamp_of(moved: Option<CivilTime>, offset: UtcOffset) -> (res: Result<String, Error>)
    ensures
        match res {
            Ok(text) => moved matches Some(civil) && civil.fits_layout() && text@ == rendered(
                civil,
                offset,
            ) && has_layout(text@),
            Err(e) => match moved {
                Some(civil) => !civil.fits_layout() && e == Error::TimeFormat,
                None => e == Error::DatetimeOverflow,
            },
        },
{
    match moved {
        Some(civil) => format_timestamp(&civil, offset),
        None => Err(Error::DatetimeOverflow),
    }
}

/// The timestamp at `utc_offset` of the moment `now_unix` seconds after the
/// start of 1970 in UTC. The wall clock fields are those of UTC moved by the
/// whole of `utc_offset`, minutes included. Fails with `DatetimeOverflow` where
/// that leaves the dates that can be held, and with `TimeFormat` where the
/// layout has no room for the date.
pub fn local_timestamp_at(now_unix: i64, utc_offset: UtcOffset) -> (res: Result<String, Error>)
    ensures
        match res {
            Ok(text) => timestamp_at(now_unix, utc_offset) == Ok::<Seq<char>, Error>(text@)
                && has_layout(text@) && text@.subrange(19, 25) == offset_marker(utc_offset),
            Err(e) => timestamp_at(now_unix, utc_offset) == Err::<Seq<char>, Error>(e),
        },
{
    let moved: Option<CivilTime> = civil_after(now_unix, utc_offset.whole_minutes());
    let res = timestamp_of(moved, utc_offset);
    proof {
        if let Some(shown) = moved {
            if shown.fits_layout() {
                lemma_rendered_layout(shown, utc_offset);
            }
        }
    }
    res
}

/// The timestamp of the current moment at `utc_offset`: what
/// `local_timestamp_at` makes of the system clock's time.
pub fn get_local_timestamp_from_offset_rfc3339(utc_offset: UtcOffset) -> (res: Result<
    String,
    Error,
>)
    ensures
        match res {
            Ok(text) => has_layout(text@) && text@.subrange(19, 25) == offset_marker(utc_offset)
                && exists|now: i64| #[trigger]
                timestamp_at(now, utc_offset) == Ok::<Seq<char>, Error>(text@),
            Err(e) => exists|now: i64| #[trigger]
                timestamp_at(now, utc_offset) == Err::<Seq<char>, Error>(e),
        },
{
    local_timestamp_at(now_unix(), utc_offset)
}

/// Every rendered timestamp has the fixed layout and ends with the marker of
/// its offset.
pub proof fn lemma_rendered_layout(civil: CivilTime, offset: UtcOffset)
    requires
        civil.fits_layout(),
        offset.wf(),
    ensures
        has_layout(rendered(civil, offset)),
        rendered(civil, offset).subrange(19, 25) == offset_marker(offset),
{
    let s = rendered(civil, offset);
    let front = date_part(civil) + seq!['T'] + clock_part(civil);
    assert(date_part(civil).len() == 10);
    assert(clock_part(civil).len() == 8);
    assert(front.len() == 19);
    assert(offset_marker(offset).len() == 6);
    assert(s.subrange(19, 25) =~= offset_marker(offset));
    lemma_two_digits_are_digits(civil.year as int / 100);
    lemma_two_digits_are_digits(civil.year as int % 100);
    lemma_two_digits_are_digits(civil.month as int);
    lemma_two_digits_are_digits(civil.day as int);
    lemma_two_digits_are_digits(civil.hour as int);
    lemma_two_digits_are_digits(civil.minute as int);
    lemma_two_digits_are_digits(civil.second as int);
    lemma_two_digits_are_digits(offset.spec_minutes());
    lemma_two_digits_are_digits(
        if offset.spec_hours() < 0 {
            -offset.spec_hours()
        } else {
            offset.spec_hours()
        },
    );
    assert(has_layout(s));
}

/// The marker spells the hours and minutes it was made of: sign, two digits
/// of the hours, a colon, two digits of the minutes.
pub proof fn lemma_marker_spells_pair(hours: int, minutes: int)
    requires
        valid_pair(hours, minutes),
    ensures
        marker_of(hours, minutes).len() == 6,
        marker_of(hours, minutes)[0] == (if hours < 0 {
            '-'
        } else {
            '+'
        }),
        marker_of(hours, minutes)[3] == ':',
        10 * digit_value(marker_of(hours, minutes)[1]) + digit_value(marker_of(hours, minutes)[2])
            == (if hours < 0 {
            -hours
        } else {
            hours
        }),
        10 * digit_value(marker_of(hours, minutes)[4]) + digit_value(marker_of(hours, minutes)[5])
            == minutes,
{
    lemma_two_digits_are_digits(if hours < 0 { -hours } else { hours });
    lemma_two_digits_are_digits(minutes);
}

/// Every pair of hours and minutes in range makes an offset, and each
/// timestamp rendered at that offset ends with the marker that spells the
/// pair.
pub proof fn lemma_valid_pair_is_shown(hours: i8, minutes: i8, offset: UtcOffset, civil: CivilTime)
    requires
        valid_pair(hours as int, minutes as int),
        offset.parts() == (hours as int, minutes as int),
        civil.fits_layout(),
    ensures
        pair_fault(hours, minutes) is None,
        has_layout(rendered(civil, offset)),
        rendered(civil, offset).subrange(19, 25) == marker_of(hours as int, minutes as int),
{
    lemma_rendered_layout(civil, offset);
}

/// Two pairs in range with the same marker are the same pair.
pub proof fn lemma_marker_names_pair(h1: int, m1: int, h2: int, m2: int)
    requires
        valid_pair(h1, m1),
        valid_pair(h2, m2),
        marker_of(h1, m1) == marker_of(h2, m2),
    ensures
        h1 == h2,
        m1 == m2,
{
    lemma_marker_spells_pair(h1, m1);
    lemma_marker_spells_pair(h2, m2);
}

/// What is shown of an offset can be read again: the marker of a pair in range
/// is a string that names that pair.
pub proof fn lemma_marker_parses_back(hours: int, minutes: int)
    requires
        valid_pair(hours, minutes),
    ensures
        offset_fields(marker_of(hours, minutes)) == Some((hours, minutes)),
{
    lemma_marker_spells_pair(hours, minutes);
    lemma_two_digits_are_digits(if hours < 0 { -hours } else { hours });
    lemma_two_digits_are_digits(minutes);
}

} // verus!
