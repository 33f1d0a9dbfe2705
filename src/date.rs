//! Calendar dates, local timestamps and the journal's notion of "today".

use chrono::{Datelike, Timelike};
use vstd::prelude::*;

verus! {

/// The first year that chrono's `NaiveDate` represents.
pub const MIN_YEAR: i32 = -262143;

/// The last year that chrono's `NaiveDate` represents.
pub const MAX_YEAR: i32 = 262142;

pub open spec fn is_leap(y: int) -> bool {
    (y % 4 == 0 && y % 100 != 0) || y % 400 == 0
}

pub open spec fn days_in_month(y: int, m: int) -> int {
    if m == 2 {
        if is_leap(y) { 29 } else { 28 }
    } else if m == 4 || m == 6 || m == 9 || m == 11 {
        30
    } else {
        31
    }
}

/// A day of the proleptic Gregorian calendar within chrono's range.
pub open spec fn valid_date(y: int, m: int, d: int) -> bool {
    &&& MIN_YEAR <= y <= MAX_YEAR
    &&& 1 <= m <= 12
    &&& 1 <= d <= days_in_month(y, m)
}

/// The first day that can be represented.
pub open spec fn is_first_date(y: int, m: int, d: int) -> bool {
    y == MIN_YEAR && m == 1 && d == 1
}

/// The calendar day before (y, m, d).
pub open spec fn prev_date(y: int, m: int, d: int) -> (int, int, int) {
    if d > 1 {
        (y, m, d - 1)
    } else if m > 1 {
        (y, m - 1, days_in_month(y, m - 1))
    } else {
        (y - 1, 12, 31)
    }
}

/// A calendar day, without time of day.
#[derive(Clone, Copy, Debug, PartialEq, Eq, Structural)]
pub struct CalendarDate {
    pub year: i32,
    pub month: u32,
    pub day: u32,
}

impl CalendarDate {
    pub open spec fn wf(self) -> bool {
        valid_date(self.year as int, self.month as int, self.day as int)
    }

    pub open spec fn is_first(self) -> bool {
        is_first_date(self.year as int, self.month as int, self.day as int)
    }

    /// The day before, as a triple.
    pub open spec fn prev(self) -> (int, int, int) {
        prev_date(self.year as int, self.month as int, self.day as int)
    }

    /// Makes a date from its parts; `None` where no such day exists.
    pub fn new(year: i32, month: u32, day: u32) -> (r: Option<CalendarDate>)
        ensures
            r is Some <==> valid_date(year as int, month as int, day as int),
            r is Some ==> r->0 == (CalendarDate { year, month, day }),
    {
        if ymd_is_valid(year, month, day) {
            Some(CalendarDate { year, month, day })
        } else {
            None
        }
    }

    /// The date written as `YYYY-MM-DD`, the form of the `DATE` macro.
    pub fn iso_string(&self) -> (r: String)
        requires
            self.wf(),
        ensures
            0 <= self.year <= 9999 ==> r@ == iso_text(*self),
    {
        match ymd_text(self.year, self.month, self.day) {
            Some(s) => s,
            None => String::new(),
        }
    }
}

/// `YYYY-MM-DD` for a year of four digits.
pub open spec fn iso_text(d: CalendarDate) -> Seq<char> {
    let y = d.year as int;
    seq![
        crate::text::digit(y / 1000),
        crate::text::digit((y / 100) % 10),
        crate::text::digit((y / 10) % 10),
        crate::text::digit(y % 10),
        '-',
    ] + crate::text::two_digits(d.month as nat) + seq!['-'] + crate::text::two_digits(d.day as nat)
}

/// A local wall-clock reading: its date and hour of day.
#[derive(Clone, Copy, Debug, PartialEq, Eq, Structural)]
pub struct LocalTime {
    pub date: CalendarDate,
    pub hour: u32,
}

impl LocalTime {
    pub open spec fn wf(self) -> bool {
        self.date.wf() && self.hour < 24
    }
}

/// Relies on chrono's `NaiveDate::from_ymd_opt`: `Some` exactly for an
/// existing day within its year range.
#[verifier::external_body]
fn ymd_is_valid(year: i32, month: u32, day: u32) -> (r: bool)
    ensures
        r == valid_date(year as int, month as int, day as int),
{
    chrono::NaiveDate::from_ymd_opt(year, month, day).is_some()
}

/// A triple of machine integers, read as mathematical ones.
pub open spec fn triple_of(r: Option<(i32, u32, u32)>) -> Option<(int, int, int)> {
    match r {
        Some((y, m, d)) => Some((y as int, m as int, d as int)),
        None => None,
    }
}

/// Relies on chrono's `NaiveDate::pred_opt`: the previous calendar day, or
/// `None` on the first representable day.
#[verifier::external_body]
fn ymd_pred(year: i32, month: u32, day: u32) -> (r: Option<(i32, u32, u32)>)
    requires
        valid_date(year as int, month as int, day as int),
    ensures
        triple_of(r) == (if is_first_date(year as int, month as int, day as int) {
            None
        } else {
            Some(prev_date(year as int, month as int, day as int))
        }),
{
    match chrono::NaiveDate::from_ymd_opt(year, month, day) {
        Some(d) => match d.pred_opt() {
            Some(p) => Some((p.year(), p.month(), p.day())),
            None => None,
        },
        None => None,
    }
}

/// Relies on the `Display` of chrono's `NaiveDate`: four year digits, then
/// two month digits and two day digits, joined by `-`, for years 0 to 9999.
#[verifier::external_body]
fn ymd_text(year: i32, month: u32, day: u32) -> (r: Option<String>)
    requires
        valid_date(year as int, month as int, day as int),
    ensures
        r is Some,
        0 <= year <= 9999 ==> r->0@ == iso_text(CalendarDate { year, month, day }),
{
    match chrono::NaiveDate::from_ymd_opt(year, month, day) {
        Some(d) => Some(d.to_string()),
        None => None,
    }
}

/// Relies on chrono's `Local::now` and `naive_local`: the local date and hour
/// now. Nothing more is known of the reading.
#[verifier::external_body]
fn local_clock() -> (r: (i32, u32, u32, u32))
    ensures
        valid_date(r.0 as int, r.1 as int, r.2 as int),
        r.3 < 24,
{
    let now = chrono::offset::Local::now().naive_local();
    (now.year(), now.month(), now.day(), now.hour())
}

/// The journal day that a timestamp belongs to: until the offset hour,
/// inclusive, the day before. `None` where that day cannot be represented.
pub open spec fn journal_day(now: LocalTime, offset: u32) -> Option<CalendarDate> {
    if now.hour <= offset {
        if now.date.is_first() {
            None
        } else {
            let p = now.date.prev();
            Some(CalendarDate { year: p.0 as i32, month: p.1 as u32, day: p.2 as u32 })
        }
    } else {
        Some(now.date)
    }
}

/// Applies the day-boundary offset to a timestamp.
pub fn resolve_today(now: LocalTime, midnight_offset: u32) -> (r: Option<CalendarDate>)
    requires
        now.wf(),
    ensures
        r == journal_day(now, midnight_offset),
        r is Some ==> r->0.wf(),
{
    if now.hour <= midnight_offset {
        match ymd_pred(now.date.year, now.date.month, now.date.day) {
            Some((y, m, d)) => {
                let r = CalendarDate { year: y, month: m, day: d };
                proof {
                    lemma_prev_date_valid(now.date.year as int, now.date.month as int, now.date.day as int);
                }
                Some(r)
            },
            None => None,
        }
    } else {
        Some(now.date)
    }
}

/// The day before a valid day other than the first is valid.
pub proof fn lemma_prev_date_valid(y: int, m: int, d: int)
    requires
        valid_date(y, m, d),
        !is_first_date(y, m, d),
    ensures
        valid_date(prev_date(y, m, d).0, prev_date(y, m, d).1, prev_date(y, m, d).2),
{
}

/// Reads the local clock.
pub fn now() -> (r: LocalTime)
    ensures
        r.wf(),
{
    let (y, m, d, h) = local_clock();
    LocalTime { date: CalendarDate { year: y, month: m, day: d }, hour: h }
}

/// The current journal day for a configured offset (none configured: 0).
pub fn today(midnight_offset: Option<u32>) -> (r: Option<CalendarDate>)
    ensures
        r is Some ==> r->0.wf(),
        exists|t: LocalTime|
            t.wf() && r == journal_day(
                t,
                if midnight_offset is Some { midnight_offset->0 } else { 0 },
            ),
{
    let offset: u32 = match midnight_offset {
        Some(o) => o,
        None => 0,
    };
    let t = now();
    let r = resolve_today(t, offset);
    assert(t.wf() && r == journal_day(t, offset));
    r
}

} // verus!
