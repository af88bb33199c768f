//! The arithmetic of a month grid: dates as plain year, month and day, the
//! length of a month, the weekday a month starts and ends on, and the cells
//! of a seven-column calendar. Date computations are chrono's.
use vstd::prelude::*;

use chrono::{Datelike, NaiveDate, Weekday};
use vstd::arithmetic::div_mod::{lemma_fundamental_div_mod, lemma_mod_multiples_basic};

verus! {

#[verifier::external_type_specification]
pub struct ExWeekday(Weekday);

/// The earliest year a date can have.
pub const MIN_YEAR: i32 = -262143;

/// The latest year a date can have.
pub const MAX_YEAR: i32 = 262142;

/// Leap years of the proleptic Gregorian calendar.
pub open spec fn is_leap(year: int) -> bool {
    year % 4 == 0 && (year % 100 != 0 || year % 400 == 0)
}

/// The number of days of `month` (1 to 12) in `year`.
pub open spec fn days_in_month(year: int, month: int) -> int {
    if month == 2 {
        if is_leap(year) { 29 } else { 28 }
    } else if month == 4 || month == 6 || month == 9 || month == 11 {
        30
    } else {
        31
    }
}

/// A date that exists and lies in the supported range of years.
pub open spec fn valid_date(year: int, month: int, day: int) -> bool {
    &&& MIN_YEAR <= year <= MAX_YEAR
    &&& 1 <= month <= 12
    &&& 1 <= day <= days_in_month(year, month)
}

/// The day before a date.
pub open spec fn day_before(year: int, month: int, day: int) -> (int, int, int) {
    if day > 1 {
        (year, month, day - 1)
    } else if month > 1 {
        (year, month - 1, days_in_month(year, month - 1))
    } else {
        (year - 1, 12, 31)
    }
}

/// The days of the years before `year` in the proleptic Gregorian calendar,
/// counted from 0001-01-01.
pub open spec fn days_before_year(year: int) -> int {
    365 * (year - 1) + (year - 1) / 4 - (year - 1) / 100 + (year - 1) / 400
}

/// The days of the months of `year` before `month`.
pub open spec fn days_before_month(year: int, month: int) -> int
    decreases month,
{
    if month <= 1 {
        0
    } else {
        days_before_month(year, month - 1) + days_in_month(year, month - 1)
    }
}

/// The column of a date in a week that starts on Monday; 0001-01-01 was a
/// Monday.
pub open spec fn weekday_index(year: int, month: int, day: int) -> int {
    (days_before_year(year) + days_before_month(year, month) + day - 1) % 7
}

/// The weekday of a date.
pub open spec fn weekday_of(year: int, month: int, day: int) -> Weekday {
    let i = weekday_index(year, month, day);
    if i == 0 {
        Weekday::Mon
    } else if i == 1 {
        Weekday::Tue
    } else if i == 2 {
        Weekday::Wed
    } else if i == 3 {
        Weekday::Thu
    } else if i == 4 {
        Weekday::Fri
    } else if i == 5 {
        Weekday::Sat
    } else {
        Weekday::Sun
    }
}

/// Relies on `NaiveDate::from_ymd_opt`: `Some` exactly for dates that exist
/// within the supported years.
#[verifier::external_body]
fn date_exists(year: i32, month: u32, day: u32) -> (r: bool)
    ensures
        r == valid_date(year as int, month as int, day as int),
{
    NaiveDate::from_ymd_opt(year, month, day).is_some()
}

/// Relies on `NaiveDate::pred_opt`: the previous day, `None` only before the
/// first supported date.
#[verifier::external_body]
fn previous_day(year: i32, month: u32, day: u32) -> (r: Option<(i32, u32, u32)>)
    requires
        valid_date(year as int, month as int, day as int),
    ensures
        r is None <==> (year == MIN_YEAR && month == 1 && day == 1),
        r matches Some(p) ==> (p.0 as int, p.1 as int, p.2 as int) == day_before(
            year as int,
            month as int,
            day as int,
        ),
{
    let d = NaiveDate::from_ymd_opt(year, month, day).unwrap();
    d.pred_opt().map(|p| (p.year(), p.month(), p.day()))
}

/// Relies on `Datelike::weekday` of a `NaiveDate`: the day of the week of a
/// valid date in the proleptic Gregorian calendar.
#[verifier::external_body]
fn weekday(year: i32, month: u32, day: u32) -> (r: Weekday)
    requires
        valid_date(year as int, month as int, day as int),
    ensures
        r == weekday_of(year as int, month as int, day as int),
{
    NaiveDate::from_ymd_opt(year, month, day).unwrap().weekday()
}

/// A calendar date as year, month (1 to 12) and day of the month.
#[derive(Clone, Copy, PartialEq, Eq, Structural, Debug)]
pub struct CalendarDate {
    pub year: i32,
    pub month: u32,
    pub day: u32,
}

impl CalendarDate {
    /// The date exists.
    pub open spec fn wf(&self) -> bool {
        valid_date(self.year as int, self.month as int, self.day as int)
    }

    /// The date `year`-`month`-`day`, or `None` if no such date exists.
    pub fn new(year: i32, month: u32, day: u32) -> (r: Option<CalendarDate>)
        ensures
            r is Some <==> valid_date(year as int, month as int, day as int),
            r matches Some(d) ==> d.year == year && d.month == month && d.day == day,
    {
        if date_exists(year, month, day) {
            Some(CalendarDate { year, month, day })
        } else {
            None
        }
    }
}

/// The column of a weekday in a week that starts on Sunday.
pub open spec fn day_num_of(w: Weekday) -> int {
    match w {
        Weekday::Sun => 0,
        Weekday::Mon => 1,
        Weekday::Tue => 2,
        Weekday::Wed => 3,
        Weekday::Thu => 4,
        Weekday::Fri => 5,
        Weekday::Sat => 6,
    }
}

/// The column of `w` in a week that starts on Sunday.
pub fn day_num(w: Weekday) -> (r: u8)
    ensures
        r as int == day_num_of(w),
        r < 7,
{
    match w {
        Weekday::Sun => 0,
        Weekday::Mon => 1,
        Weekday::Tue => 2,
        Weekday::Wed => 3,
        Weekday::Thu => 4,
        Weekday::Fri => 5,
        Weekday::Sat => 6,
    }
}

/// The month has a successor month within the supported years.
pub open spec fn has_next_month(date: CalendarDate) -> bool {
    date.month < 12 || date.year < MAX_YEAR
}

/// The number of days in the month of `date`, taken as the day of the month
/// of the day before the first of the next month.
pub fn get_days_in_month(date: CalendarDate) -> (r: u32)
    requires
        date.wf(),
        has_next_month(date),
    ensures
        r as int == days_in_month(date.year as int, date.month as int),
        28 <= r <= 31,
{
    let (year, month) = if date.month == 12 {
        (date.year + 1, 1u32)
    } else {
        (date.year, date.month + 1)
    };
    // The first of a month after `date`'s is never the first supported date.
    let last = previous_day(year, month, 1);
    last.unwrap().2
}

/// One cell of a month grid.
#[derive(Clone, Copy, PartialEq, Eq, Structural, Hash, Debug)]
pub enum DayKind {
    /// A cell before the first or after the last day of the month.
    Blank,
    /// The cell of a day of the month.
    Day(u8),
}

/// The layout of a month in seven columns: leading blanks, the days, and
/// trailing blanks.
#[derive(Clone, Copy, PartialEq, Eq, Structural, Debug)]
pub struct CalendarDays {
    pub start_blanks: u8,
    pub days: u8,
    pub end_blanks: u8,
}

/// The cells of a layout, in order.
pub open spec fn cells_of(c: CalendarDays) -> Seq<DayKind> {
    Seq::new(c.start_blanks as nat, |i: int| DayKind::Blank) + Seq::new(
        c.days as nat,
        |i: int| DayKind::Day((i + 1) as u8),
    ) + Seq::new(c.end_blanks as nat, |i: int| DayKind::Blank)
}

impl CalendarDays {
    /// The cells, in order: `start_blanks` blanks, the days `1..=days`, then
    /// `end_blanks` blanks.
    pub fn into_cells(self) -> (r: Vec<DayKind>)
        ensures
            r@ == cells_of(self),
    {
        let mut v: Vec<DayKind> = Vec::new();
        let mut i: u8 = 0;
        while i < self.start_blanks
            invariant
                i <= self.start_blanks,
                v@ == Seq::new(i as nat, |k: int| DayKind::Blank),
            decreases self.start_blanks - i,
        {
            v.push(DayKind::Blank);
            i = i + 1;
            assert(v@ =~= Seq::new(i as nat, |k: int| DayKind::Blank));
        }
        let ghost head = v@;
        let mut d: u8 = 0;
        while d < self.days
            invariant
                d <= self.days,
                head == Seq::new(self.start_blanks as nat, |k: int| DayKind::Blank),
                v@ == head + Seq::new(d as nat, |k: int| DayKind::Day((k + 1) as u8)),
            decreases self.days - d,
        {
            v.push(DayKind::Day(d + 1));
            d = d + 1;
            assert(v@ =~= head + Seq::new(d as nat, |k: int| DayKind::Day((k + 1) as u8)));
        }
        let ghost mid = v@;
        let mut e: u8 = 0;
        while e < self.end_blanks
            invariant
                e <= self.end_blanks,
                mid == Seq::new(self.start_blanks as nat, |k: int| DayKind::Blank) + Seq::new(
                    self.days as nat,
                    |k: int| DayKind::Day((k + 1) as u8),
                ),
                v@ == mid + Seq::new(e as nat, |k: int| DayKind::Blank),
            decreases self.end_blanks - e,
        {
            v.push(DayKind::Blank);
            e = e + 1;
            assert(v@ =~= mid + Seq::new(e as nat, |k: int| DayKind::Blank));
        }
        v
    }
}

/// The layout of the month of `date`: as many leading blanks as the columns
/// before its first day's weekday, its days, and trailing blanks up to the
/// end of the week of its last day.
pub open spec fn month_layout(date: CalendarDate) -> CalendarDays {
    let dim = days_in_month(date.year as int, date.month as int);
    CalendarDays {
        start_blanks: day_num_of(weekday_of(date.year as int, date.month as int, 1)) as u8,
        days: dim as u8,
        end_blanks: (6 - day_num_of(weekday_of(date.year as int, date.month as int, dim))) as u8,
    }
}

/// The cells a layout fills.
pub open spec fn cell_count(c: CalendarDays) -> int {
    c.start_blanks + c.days + c.end_blanks
}

/// The column of a date in a week that starts on Sunday is its day count
/// from 0001-01-01 modulo 7.
pub proof fn lemma_day_num_of_date(year: int, month: int, day: int)
    ensures
        day_num_of(weekday_of(year, month, day)) == (days_before_year(year)
            + days_before_month(year, month) + day) % 7,
{
    let n = days_before_year(year) + days_before_month(year, month) + day;
    lemma_fundamental_div_mod(n - 1, 7);
    lemma_fundamental_div_mod(n, 7);
}

/// The layout of a month fills whole rows of seven cells: between four and
/// six of them.
pub proof fn lemma_whole_rows(date: CalendarDate)
    requires
        date.wf(),
    ensures
        cell_count(month_layout(date)) % 7 == 0,
        28 <= cell_count(month_layout(date)) <= 42,
        month_layout(date).start_blanks <= 6,
        month_layout(date).end_blanks <= 6,
{
    let y = date.year as int;
    let m = date.month as int;
    let dim = days_in_month(y, m);
    let b = days_before_year(y) + days_before_month(y, m);
    lemma_day_num_of_date(y, m, 1);
    lemma_day_num_of_date(y, m, dim);
    lemma_fundamental_div_mod(b + 1, 7);
    lemma_fundamental_div_mod(b + dim, 7);
    let k = (b + dim) / 7 - (b + 1) / 7 + 1;
    assert((b + 1) % 7 + dim + 6 - (b + dim) % 7 == 7 * k);
    lemma_mod_multiples_basic(k, 7);
}

/// The layout of the month of `date`.
pub fn calendar_days(date: CalendarDate) -> (r: CalendarDays)
    requires
        date.wf(),
        has_next_month(date),
    ensures
        r == month_layout(date),
        r.start_blanks < 7,
        r.end_blanks < 7,
        cell_count(r) % 7 == 0,
        28 <= cell_count(r) <= 42,
{
    proof {
        lemma_whole_rows(date);
    }
    let first = day_num(weekday(date.year, date.month, 1));
    let num_days = get_days_in_month(date);
    let last = day_num(weekday(date.year, date.month, num_days));
    CalendarDays { start_blanks: first, days: num_days as u8, end_blanks: 6 - last }
}

/// A request to move one end of a date range.
pub enum DateMessage {
    StartDate(CalendarDate),
    EndDate(CalendarDate),
}

/// A date range with the month grid of the start date it was opened on.
pub struct DatePicker {
    pub start_date: CalendarDate,
    pub end_date: CalendarDate,
    pub grid: CalendarDays,
}

/// A date picker over `start_date..=end_date`, showing the month of
/// `start_date`.
pub fn datepicker(start_date: CalendarDate, end_date: CalendarDate) -> (r: DatePicker)
    requires
        start_date.wf(),
        has_next_month(start_date),
    ensures
        r.start_date == start_date,
        r.end_date == end_date,
        r.grid == month_layout(start_date),
        cells_of(r.grid).len() % 7 == 0,
        28 <= cells_of(r.grid).len() <= 42,
{
    let grid = calendar_days(start_date);
    DatePicker { start_date, end_date, grid }
}

impl DatePicker {
    /// Moves the end of the range that `message` names.
    pub fn update(&mut self, message: DateMessage)
        ensures
            match message {
                DateMessage::StartDate(d) => final(self).start_date == d && final(self).end_date
                    == old(self).end_date && final(self).grid == old(self).grid,
                DateMessage::EndDate(d) => final(self).end_date == d && final(self).start_date
                    == old(self).start_date && final(self).grid == old(self).grid,
            },
    {
        match message {
            DateMessage::StartDate(date) => self.start_date = date,
            DateMessage::EndDate(date) => self.end_date = date,
        }
    }
}

} // verus!
