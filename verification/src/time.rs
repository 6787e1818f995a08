//! Instants, and how they are written.

use vstd::prelude::*;

verus! {

/// An instant, in microseconds since the start of 1970, within the years that a calendar here
/// reaches (some 262 thousand in either direction).
#[derive(Clone, Copy, Debug)]
pub struct Timestamp {
    micros: i64,
}

/// The microseconds that an instant can stand at.
pub open spec fn in_calendar(micros: int) -> bool {
    -8_334_601_228_800_000_000 <= micros <= 8_210_266_876_799_999_999
}

impl View for Timestamp {
    type V = int;

    closed spec fn view(&self) -> int {
        self.micros as int
    }
}

impl Timestamp {
    #[verifier::type_invariant]
    spec fn valid(self) -> bool {
        in_calendar(self.micros as int)
    }

    /// The instant at this many microseconds.
    pub fn from_micros(micros: i64) -> (r: Option<Timestamp>)
        ensures
            match r {
                Some(t) => t@ == micros,
                None => !in_calendar(micros as int),
            },
    {
        if -8_334_601_228_800_000_000 <= micros && micros <= 8_210_266_876_799_999_999 {
            Some(Timestamp { micros })
        } else {
            None
        }
    }

    pub fn micros(&self) -> (r: i64)
        ensures
            r == self@,
            in_calendar(r as int),
    {
        proof {
            use_type_invariant(self);
        }
        self.micros
    }

    /// The date and time with milliseconds and `Z`, by a fixed pattern.
    pub fn js_iso(&self) -> (r: String)
        ensures
            r@ == pattern_text(self@ as i64),
    {
        let micros: i64 = self.micros();
        write_pattern(micros)
    }

    /// The date and time as RFC 3339 has it, with milliseconds and `Z`.
    pub fn iso(&self) -> (r: String)
        ensures
            r@ == rfc3339_millis(self@ as i64),
    {
        let micros: i64 = self.micros();
        write_rfc3339_millis(micros)
    }

    /// The date and time as RFC 3339 has it.
    pub fn rfc3339(&self) -> (r: String)
        ensures
            r@ == rfc3339_text(self@ as i64),
    {
        let micros: i64 = self.micros();
        write_rfc3339(micros)
    }
}

/// An instant, given in microseconds, written as `%Y-%m-%dT%H:%M:%S%.3fZ`.
pub uninterp spec fn pattern_text(micros: i64) -> Seq<char>;

/// An instant, given in microseconds, as RFC 3339 writes it with milliseconds and `Z`.
pub uninterp spec fn rfc3339_millis(micros: i64) -> Seq<char>;

/// An instant, given in microseconds, as RFC 3339 writes it with the digits that it needs.
pub uninterp spec fn rfc3339_text(micros: i64) -> Seq<char>;

/// `chrono::DateTime::format` with the pattern `%Y-%m-%dT%H:%M:%S%.3fZ`, in UTC.
#[verifier::external_body]
fn write_pattern(micros: i64) -> (r: String)
    requires
        in_calendar(micros as int),
    ensures
        r@ == pattern_text(micros),
{
    let at = chrono::DateTime::from_timestamp_micros(micros).expect("an instant of the calendar");
    at.format("%Y-%m-%dT%H:%M:%S%.3fZ").to_string()
}

/// `chrono::DateTime::to_rfc3339_opts` with milliseconds and `Z`, in UTC.
#[verifier::external_body]
fn write_rfc3339_millis(micros: i64) -> (r: String)
    requires
        in_calendar(micros as int),
    ensures
        r@ == rfc3339_millis(micros),
{
    let at = chrono::DateTime::from_timestamp_micros(micros).expect("an instant of the calendar");
    at.to_rfc3339_opts(chrono::SecondsFormat::Millis, true)
}

/// `chrono::DateTime::to_rfc3339`, in UTC.
#[verifier::external_body]
fn write_rfc3339(micros: i64) -> (r: String)
    requires
        in_calendar(micros as int),
    ensures
        r@ == rfc3339_text(micros),
{
    let at = chrono::DateTime::from_timestamp_micros(micros).expect("an instant of the calendar");
    at.to_rfc3339()
}

/// A day of the calendar, counted from the start of 1970.
#[derive(Clone, Copy, Debug, PartialEq, Eq, Structural)]
pub struct Date {
    days: i32,
}

/// The days that a calendar reaches.
pub open spec fn day_in_calendar(days: int) -> bool {
    -96_465_292 <= days <= 95_026_236
}

impl View for Date {
    type V = int;

    closed spec fn view(&self) -> int {
        self.days as int
    }
}

impl Date {
    #[verifier::type_invariant]
    spec fn valid(self) -> bool {
        day_in_calendar(self.days as int)
    }

    /// The day that is this many days after the first of January 1970.
    pub fn from_days(days: i32) -> (r: Option<Date>)
        ensures
            match r {
                Some(d) => d@ == days,
                None => !day_in_calendar(days as int),
            },
    {
        if -96_465_292 <= days && days <= 95_026_236 {
            Some(Date { days })
        } else {
            None
        }
    }

    pub fn days(&self) -> (r: i32)
        ensures
            r == self@,
            day_in_calendar(r as int),
    {
        proof {
            use_type_invariant(self);
        }
        self.days
    }

    /// The day with its year, month and day.
    pub fn text(&self) -> (r: String)
        ensures
            r@ == date_text(self@ as i32),
    {
        let days: i32 = self.days();
        write_date(days)
    }

    /// The day with its year, month and day, by a fixed pattern.
    pub fn by_pattern(&self) -> (r: String)
        ensures
            r@ == date_pattern(self@ as i32),
    {
        let days: i32 = self.days();
        write_date_pattern(days)
    }
}

/// A day, counted from the start of 1970, as it is written.
pub uninterp spec fn date_text(days: i32) -> Seq<char>;

/// A day, counted from the start of 1970, written as `%Y-%m-%d`.
pub uninterp spec fn date_pattern(days: i32) -> Seq<char>;

/// A day that there may be, as it is written.
pub open spec fn opt_date(date: Option<Date>) -> Option<Seq<char>> {
    match date {
        Some(d) => Some(date_text(d@ as i32)),
        None => None,
    }
}

/// Writes a day that there may be.
pub fn date_of(date: Option<Date>) -> (r: Option<String>)
    ensures
        match r {
            Some(s) => opt_date(date) == Some(s@),
            None => date is None,
        },
{
    match date {
        Some(d) => Some(d.text()),
        None => None,
    }
}

/// `chrono::NaiveDate` as a text, by its `Display`.
#[verifier::external_body]
fn write_date(days: i32) -> (r: String)
    requires
        day_in_calendar(days as int),
    ensures
        r@ == date_text(days),
{
    let day = chrono::NaiveDate::from_epoch_days(days).expect("a day of the calendar");
    day.to_string()
}

/// `chrono::NaiveDate::format` with the pattern `%Y-%m-%d`.
#[verifier::external_body]
fn write_date_pattern(days: i32) -> (r: String)
    requires
        day_in_calendar(days as int),
    ensures
        r@ == date_pattern(days),
{
    let day = chrono::NaiveDate::from_epoch_days(days).expect("a day of the calendar");
    day.format("%Y-%m-%d").to_string()
}

} // verus!
