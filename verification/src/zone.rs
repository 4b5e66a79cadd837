//! Calendar dates and IANA time zones, as chrono and chrono-tz compute them,
//! and the move of a weekly broadcast slot from one zone to another.
use vstd::prelude::*;
use chrono::{Datelike, NaiveDate, TimeDelta, Timelike};
use chrono::offset::LocalResult;
use crate::anime_time::{AnimeTime, ZoneConversionError};
use crate::minute::Minute;
use crate::weekday::{Weekday, days_from_monday, weekday_from_monday};

verus! {

/// chrono-tz's time zone, carried through opaque.
#[verifier::external_type_specification]
#[verifier::external_body]
pub struct ExTz(chrono_tz::Tz);

/// The first year of chrono's calendar.
pub const MIN_YEAR: i32 = -262143;

/// The last year of chrono's calendar.
pub const MAX_YEAR: i32 = 262142;

/// Whether a year of the proleptic Gregorian calendar is a leap year.
pub open spec fn is_leap_year(year: int) -> bool {
    year % 4 == 0 && (year % 100 != 0 || year % 400 == 0)
}

/// The number of days of a month of the proleptic Gregorian calendar.
pub open spec fn days_in_month(year: int, month: int) -> int {
    if month == 2 {
        if is_leap_year(year) {
            29
        } else {
            28
        }
    } else if month == 4 || month == 6 || month == 9 || month == 11 {
        30
    } else {
        31
    }
}

/// Whether chrono has the day `day` of month `month` of `year` in its
/// calendar: a day of the proleptic Gregorian calendar in the years from
/// `MIN_YEAR` to `MAX_YEAR`.
pub open spec fn is_calendar_date(year: int, month: int, day: int) -> bool {
    &&& MIN_YEAR <= year <= MAX_YEAR
    &&& 1 <= month <= 12
    &&& 1 <= day <= days_in_month(year, month)
}

/// The number of days from 1970-01-01 to a date of the proleptic Gregorian
/// calendar (negative before it).
pub open spec fn days_from_epoch(year: int, month: int, day: int) -> int {
    let y = if month <= 2 {
        year - 1
    } else {
        year
    };
    let era = y / 400;
    let yoe = y - era * 400;
    let mp = (month + 9) % 12;
    let doy = (153 * mp + 2) / 5 + day - 1;
    let doe = yoe * 365 + yoe / 4 - yoe / 100 + doy;
    era * 146097 + doe - 719468
}

/// The weekday of a date, counted from Monday as 0: 1970-01-01 was a Thursday.
pub open spec fn date_days_from_monday(year: int, month: int, day: int) -> nat {
    ((days_from_epoch(year, month, day) + 3) % 7) as nat
}

/// Whether `d` is the day of chrono's calendar that is `n` days from 1970-01-01.
pub open spec fn is_day_number(d: (i32, u32, u32), n: int) -> bool {
    is_calendar_date(d.0 as int, d.1 as int, d.2 as int) && days_from_epoch(d.0 as int, d.1 as int, d.2 as int) == n
}

/// The date `days` days after a date (before it, where `days` is negative):
/// the day of chrono's calendar whose day number is that many more, or
/// `None` past the ends of chrono's calendar.
pub open spec fn date_after_days(year: int, month: int, day: int, days: int) -> Option<(i32, u32, u32)> {
    let n = days_from_epoch(year, month, day) + days;
    if exists|d: (i32, u32, u32)| #[trigger] is_day_number(d, n) {
        Some(choose|d: (i32, u32, u32)| #[trigger] is_day_number(d, n))
    } else {
        None
    }
}

/// Whether chrono-tz has a zone under this IANA name, written exactly so.
pub uninterp spec fn iana_zone_known(name: Seq<char>) -> bool;

/// What chrono-tz makes of the wall-clock time `hour:minute` on a date in
/// the zone `source`, seen in the zone `target`.
pub uninterp spec fn local_time_conversion(
    source: Seq<char>,
    year: int,
    month: int,
    day: int,
    hour: int,
    minute: int,
    target: Seq<char>,
) -> LocalConversion;

/// A day of chrono's calendar.
#[derive(Clone, Copy, Debug, PartialEq, Eq)]
pub struct CalendarDate {
    year: i32,
    month: u32,
    day: u32,
}

impl View for CalendarDate {
    type V = (i32, u32, u32);

    closed spec fn view(&self) -> (i32, u32, u32) {
        (self.year, self.month, self.day)
    }
}

/// `NaiveDate::from_ymd_opt(..).is_some()`. chrono documents that it refuses
/// days that do not exist in the proleptic Gregorian calendar and years
/// outside its calendar, which runs from `MIN_YEAR` to `MAX_YEAR`.
#[verifier::external_body]
fn date_exists(year: i32, month: u32, day: u32) -> (r: bool)
    ensures
        r == is_calendar_date(year as int, month as int, day as int),
{
    NaiveDate::from_ymd_opt(year, month, day).is_some()
}

/// `Datelike::weekday` of the date, as `Weekday::num_days_from_monday`,
/// which chrono documents as Monday = 0 up to Sunday = 6, in the proleptic
/// Gregorian calendar.
#[verifier::external_body]
fn weekday_number(date: &CalendarDate) -> (r: u32)
    requires
        is_calendar_date(date@.0 as int, date@.1 as int, date@.2 as int),
    ensures
        r as nat == date_days_from_monday(date@.0 as int, date@.1 as int, date@.2 as int),
        r < 7,
{
    NaiveDate::from_ymd_opt(date.year, date.month, date.day).unwrap().weekday().num_days_from_monday()
}

/// `NaiveDate::checked_add_signed` with `TimeDelta::days(days)`: the date
/// that many days later, or `None` where it would be past the ends of
/// chrono's calendar, as chrono documents.
#[verifier::external_body]
fn date_add_days(date: &CalendarDate, days: i64) -> (r: Option<CalendarDate>)
    requires
        is_calendar_date(date@.0 as int, date@.1 as int, date@.2 as int),
        -7 <= days <= 7,
    ensures
        match r {
            Some(d) => date_after_days(date@.0 as int, date@.1 as int, date@.2 as int, days as int)
                == Some(d@) && is_calendar_date(d@.0 as int, d@.1 as int, d@.2 as int),
            None => date_after_days(date@.0 as int, date@.1 as int, date@.2 as int, days as int)
                is None,
        },
{
    let d = NaiveDate::from_ymd_opt(date.year, date.month, date.day).unwrap();
    let n = d.checked_add_signed(TimeDelta::days(days))?;
    Some(CalendarDate { year: n.year(), month: n.month(), day: n.day() })
}

impl CalendarDate {
    /// The day `day` of month `month` of `year`, where chrono's calendar has it.
    pub fn from_ymd(year: i32, month: u32, day: u32) -> (r: Option<CalendarDate>)
        ensures
            r is Some <==> is_calendar_date(year as int, month as int, day as int),
            r matches Some(d) ==> d@ == (year, month, day) && d.valid(),
    {
        if date_exists(year, month, day) {
            Some(CalendarDate { year, month, day })
        } else {
            None
        }
    }

    /// Whether every day of the week of this date (weeks start on Monday)
    /// is in chrono's calendar.
    pub fn week_in_calendar(&self) -> (r: bool)
        requires
            self.valid(),
        ensures
            r == week_in_calendar(self@),
    {
        let back = weekday_number(self);
        let monday = match date_add_days(self, -(back as i64)) {
            Some(m) => m,
            None => {
                assert(day_of_week_of(self@, 0) is None);
                return false;
            },
        };
        let mut n: i64 = 0;
        while n < 7
            invariant
                0 <= n <= 7,
                week_start(self@) == Some(monday@),
                is_calendar_date(monday@.0 as int, monday@.1 as int, monday@.2 as int),
                forall|j: int| 0 <= j < n ==> #[trigger] day_of_week_of(self@, j) is Some,
            decreases 7 - n,
        {
            match date_add_days(&monday, n) {
                Some(_) => {},
                None => {
                    assert(day_of_week_of(self@, n as int) is None);
                    return false;
                },
            }
            n += 1;
        }
        true
    }

    /// The dates of the calendar are the ones `from_ymd` gives.
    pub closed spec fn valid(&self) -> bool {
        is_calendar_date(self.year as int, self.month as int, self.day as int)
    }

    pub fn year(&self) -> (r: i32)
        ensures
            r == self@.0,
    {
        self.year
    }

    pub fn month(&self) -> (r: u32)
        ensures
            r == self@.1,
    {
        self.month
    }

    pub fn day(&self) -> (r: u32)
        ensures
            r == self@.2,
    {
        self.day
    }
}

/// A time zone of chrono-tz, with the IANA name it was found under.
#[derive(Clone, Copy, Debug, PartialEq, Eq)]
pub struct TimeZone {
    name: &'static str,
    tz: chrono_tz::Tz,
}

impl View for TimeZone {
    type V = Seq<char>;

    closed spec fn view(&self) -> Seq<char> {
        self.name@
    }
}

/// `str::parse::<chrono_tz::Tz>`, which looks the name up, exactly as
/// written, in chrono-tz's table, and `Tz::name`, which gives the table's
/// key back.
#[verifier::external_body]
fn find_zone(name: &str) -> (r: Option<(chrono_tz::Tz, &'static str)>)
    ensures
        r is Some <==> iana_zone_known(name@),
        r matches Some(z) ==> z.1@ == name@,
{
    let tz: chrono_tz::Tz = name.parse().ok()?;
    Some((tz, tz.name()))
}

impl TimeZone {
    /// The zone of this IANA name, where chrono-tz has one.
    pub fn named(name: &str) -> (r: Option<TimeZone>)
        ensures
            r is Some <==> iana_zone_known(name@),
            r matches Some(z) ==> z@ == name@,
    {
        match find_zone(name) {
            Some((tz, key)) => Some(TimeZone { name: key, tz }),
            None => None,
        }
    }

    /// The IANA name of the zone.
    pub fn name(&self) -> (r: &'static str)
        ensures
            r@ == self@,
    {
        self.name
    }
}

/// The zone of a name that the host reports; `UnknownTimeZone` where it
/// reports none, or one that chrono-tz does not have.
pub fn zone_from_name(name: Option<String>) -> (r: Result<TimeZone, ZoneConversionError>)
    ensures
        r is Ok <==> (name matches Some(n) && iana_zone_known(n@)),
        r matches Ok(z) ==> name matches Some(n) && z@ == n@,
        r matches Err(e) ==> e == ZoneConversionError::UnknownTimeZone,
{
    match name {
        Some(n) => match TimeZone::named(n.as_str()) {
            Some(z) => Ok(z),
            None => Err(ZoneConversionError::UnknownTimeZone),
        },
        None => Err(ZoneConversionError::UnknownTimeZone),
    }
}

/// What becomes of a wall-clock time moved to another zone.
#[derive(Clone, Copy, Debug, PartialEq, Eq)]
pub enum LocalConversion {
    /// The time occurs once; here is that instant on the target's clock.
    Single { days_from_monday: u32, hour: u32, minute: u32 },
    /// The time occurs twice in the source zone.
    Ambiguous,
    /// The time does not occur in the source zone.
    Nonexistent,
}

/// `TimeZone::from_local_datetime` of the source zone on the date at
/// `hour:minute:00`; where that is one instant, `DateTime::with_timezone` of
/// the target and that clock's weekday (Monday = 0), hour and minute, which
/// chrono documents as `0..7`, `0..24` and `0..60`.
#[verifier::external_body]
fn convert_local_time(source: &TimeZone, date: &CalendarDate, hour: u32, minute: u32, target: &TimeZone) -> (r: LocalConversion)
    requires
        is_calendar_date(date@.0 as int, date@.1 as int, date@.2 as int),
        hour < 24,
        minute < 60,
    ensures
        r == local_time_conversion(source@, date@.0 as int, date@.1 as int, date@.2 as int, hour as int, minute as int, target@),
        r matches LocalConversion::Single { days_from_monday, hour, minute } ==> days_from_monday < 7 && hour < 24 && minute < 60,
{
    let local = NaiveDate::from_ymd_opt(date.year, date.month, date.day).unwrap().and_hms_opt(hour, minute, 0).unwrap();
    match chrono::TimeZone::from_local_datetime(&source.tz, &local) {
        LocalResult::Single(v) => {
            let t = v.with_timezone(&target.tz);
            LocalConversion::Single { days_from_monday: t.weekday().num_days_from_monday(), hour: t.hour(), minute: t.minute() }
        },
        LocalResult::Ambiguous(_, _) => LocalConversion::Ambiguous,
        LocalResult::None => LocalConversion::Nonexistent,
    }
}

/// The Monday of the week of `reference`: the date that many days before it
/// that `reference` is days after Monday.
pub open spec fn week_start(reference: (i32, u32, u32)) -> Option<(i32, u32, u32)> {
    date_after_days(
        reference.0 as int,
        reference.1 as int,
        reference.2 as int,
        -date_days_from_monday(reference.0 as int, reference.1 as int, reference.2 as int),
    )
}

/// The date `days` days after the Monday of the week of `reference`, where
/// both that Monday and that date are in chrono's calendar.
pub open spec fn day_of_week_of(reference: (i32, u32, u32), days: int) -> Option<(i32, u32, u32)> {
    match week_start(reference) {
        Some(m) => date_after_days(m.0 as int, m.1 as int, m.2 as int, days),
        None => None,
    }
}

/// The date, in the week of `reference` (weeks start on Monday), that falls on `week`.
pub open spec fn date_in_week(week: Weekday, reference: (i32, u32, u32)) -> Option<(i32, u32, u32)> {
    day_of_week_of(reference, days_from_monday(week) as int)
}

/// The date that a slot is taken on falls on the slot's weekday, and in the
/// week of `reference`: no more than six days after that week's Monday,
/// which is no later than `reference`.
pub proof fn lemma_date_in_week_falls_on(week: Weekday, reference: (i32, u32, u32))
    ensures
        date_in_week(week, reference) matches Some(d) ==> {
            &&& date_days_from_monday(d.0 as int, d.1 as int, d.2 as int) == days_from_monday(week)
            &&& days_from_epoch(d.0 as int, d.1 as int, d.2 as int) == days_from_epoch(
                reference.0 as int,
                reference.1 as int,
                reference.2 as int,
            ) - date_days_from_monday(reference.0 as int, reference.1 as int, reference.2 as int)
                + days_from_monday(week)
        },
{
    let dr = days_from_epoch(reference.0 as int, reference.1 as int, reference.2 as int);
    let back = date_days_from_monday(reference.0 as int, reference.1 as int, reference.2 as int);
    let w = days_from_monday(week) as int;
    if let Some(m) = week_start(reference) {
        assert(is_day_number(m, dr - back));
        let dm = days_from_epoch(m.0 as int, m.1 as int, m.2 as int);
        if let Some(d) = date_in_week(week, reference) {
            assert(is_day_number(d, dm + w));
            assert(back == (dr + 3) % 7);
            assert((dr - back + w + 3) % 7 == w) by {
                assert(dr + 3 == 7 * ((dr + 3) / 7) + back);
                assert(dr - back + w + 3 == 7 * ((dr + 3) / 7) + w);
                vstd::arithmetic::div_mod::lemma_mod_multiples_vanish((dr + 3) / 7, w, 7);
                vstd::arithmetic::div_mod::lemma_small_mod(w as nat, 7);
            }
        }
    }
}

/// Whether a slot can be moved for the week of `reference` without leaving
/// chrono's calendar: a slot with a known minute needs its date in that week.
pub open spec fn slot_in_calendar(t: Option<(Weekday, Option<nat>, Seq<char>)>, reference: (i32, u32, u32)) -> bool {
    match t {
        Some((week, Some(_), _)) => date_in_week(week, reference) is Some,
        _ => true,
    }
}

/// Whether every day of the week of `reference` is in chrono's calendar.
pub open spec fn week_in_calendar(reference: (i32, u32, u32)) -> bool {
    forall|n: int| 0 <= n < 7 ==> #[trigger] day_of_week_of(reference, n) is Some
}

/// A broadcast slot moved to the zone `zone`: its wall-clock time, taken on
/// its weekday in the week of `reference`, read on the clock of `zone`.
/// A slot without a minute only changes its zone.
pub open spec fn to_zone_spec(
    t: (Weekday, Option<nat>, Seq<char>),
    zone: Seq<char>,
    reference: (i32, u32, u32),
) -> Result<(Weekday, Option<nat>, Seq<char>), ZoneConversionError> {
    match t.1 {
        None => Ok((t.0, None, zone)),
        Some(m) => match date_in_week(t.0, reference) {
            None => Err(ZoneConversionError::UnknownTimeZone),
            Some(d) => if !iana_zone_known(t.2) {
                Err(ZoneConversionError::UnknownTimeZone)
            } else {
                match local_time_conversion(t.2, d.0 as int, d.1 as int, d.2 as int, (m / 60) as int, (m % 60) as int, zone) {
                    LocalConversion::Single { days_from_monday, hour, minute } => Ok(
                        (weekday_from_monday(days_from_monday as int), Some((hour * 60 + minute) as nat), zone),
                    ),
                    LocalConversion::Ambiguous => Err(ZoneConversionError::AmbiguousLocalTime),
                    LocalConversion::Nonexistent => Err(ZoneConversionError::NonexistentLocalTime),
                }
            },
        },
    }
}

impl AnimeTime {
    /// The slot on the clock of `zone`, for the week of `reference`.
    pub fn to_zone(self, zone: &TimeZone, reference: &CalendarDate) -> (r: Result<AnimeTime, ZoneConversionError>)
        requires
            reference.valid(),
            slot_in_calendar(Some(self.deep_view()), reference@),
        ensures
            r matches Ok(t) ==> to_zone_spec(self.deep_view(), zone@, reference@) == Ok::<
                (Weekday, Option<nat>, Seq<char>),
                ZoneConversionError,
            >(t.deep_view()),
            r matches Err(e) ==> to_zone_spec(self.deep_view(), zone@, reference@) == Err::<
                (Weekday, Option<nat>, Seq<char>),
                ZoneConversionError,
            >(e),
    {
        let minute = match self.minute {
            Some(m) => m,
            None => {
                return Ok(AnimeTime { week: self.week, minute: None, zone: zone.name().to_owned() });
            },
        };
        let back = weekday_number(reference);
        let monday = match date_add_days(reference, -(back as i64)) {
            Some(d) => d,
            None => {
                assert(false);
                return Err(ZoneConversionError::UnknownTimeZone);
            },
        };
        let forward = self.week.num_days_from_monday();
        let date = match date_add_days(&monday, forward as i64) {
            Some(d) => d,
            None => {
                assert(false);
                return Err(ZoneConversionError::UnknownTimeZone);
            },
        };
        let source = match TimeZone::named(self.zone.as_str()) {
            Some(z) => z,
            None => {
                return Err(ZoneConversionError::UnknownTimeZone);
            },
        };
        let hour = minute.hour() as u32;
        let minute_of_hour = minute.minute_of_hour() as u32;
        match convert_local_time(&source, &date, hour, minute_of_hour, zone) {
            LocalConversion::Single { days_from_monday, hour, minute } => {
                let value = (hour * 60 + minute) as u16;
                let target_minute = Minute::new(value);
                Ok(AnimeTime {
                    week: Weekday::from_days_from_monday(days_from_monday),
                    minute: target_minute,
                    zone: zone.name().to_owned(),
                })
            },
            LocalConversion::Ambiguous => Err(ZoneConversionError::AmbiguousLocalTime),
            LocalConversion::Nonexistent => Err(ZoneConversionError::NonexistentLocalTime),
        }
    }
}

} // verus!
