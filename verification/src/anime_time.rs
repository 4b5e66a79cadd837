use vstd::prelude::*;
use std::cmp::Ordering;
use crate::minute::Minute;
use crate::weekday::{Weekday, days_from_monday};

verus! {

/// Why a broadcast time could not be moved to another time zone.
#[derive(Clone, Copy, Debug, PartialEq, Eq, Structural)]
pub enum ZoneConversionError {
    /// A time zone name is not in the time zone database.
    UnknownTimeZone,
    /// The wall-clock time occurs twice in the source zone.
    AmbiguousLocalTime,
    /// The wall-clock time does not occur in the source zone.
    NonexistentLocalTime,
}

/// The message of a [`ZoneConversionError`].
pub open spec fn zone_error_text(e: ZoneConversionError) -> Seq<char> {
    match e {
        ZoneConversionError::UnknownTimeZone => "unknown time zone"@,
        ZoneConversionError::AmbiguousLocalTime => "local time is ambiguous"@,
        ZoneConversionError::NonexistentLocalTime => "local time does not exist"@,
    }
}

impl ZoneConversionError {
    /// The message of the error.
    pub fn message(self) -> (s: &'static str)
        ensures
            s@ == zone_error_text(self),
    {
        match self {
            ZoneConversionError::UnknownTimeZone => "unknown time zone",
            ZoneConversionError::AmbiguousLocalTime => "local time is ambiguous",
            ZoneConversionError::NonexistentLocalTime => "local time does not exist",
        }
    }
}

/// A weekly broadcast slot: a weekday, the minute of the day if it is known,
/// and the IANA name of the zone that the wall-clock time is given in.
#[derive(Clone, Debug, PartialEq, Eq)]
pub struct AnimeTime {
    pub week: Weekday,
    pub minute: Option<Minute>,
    pub zone: String,
}

/// The three-way comparison of two integers.
pub open spec fn compare_int(x: int, y: int) -> Ordering {
    if x < y {
        Ordering::Less
    } else if x == y {
        Ordering::Equal
    } else {
        Ordering::Greater
    }
}

/// The lexicographic comparison of two pairs of integers.
pub open spec fn compare_pair(x: (int, int), y: (int, int)) -> Ordering {
    if x.0 != y.0 {
        compare_int(x.0, y.0)
    } else {
        compare_int(x.1, y.1)
    }
}

/// The key the timetable sorts by: the day counted from Monday, then the
/// minute, where an unknown minute comes after every known one.
pub open spec fn schedule_key(t: AnimeTime) -> (int, int) {
    (
        days_from_monday(t.week) as int,
        match t.minute {
            Some(m) => m@ as int,
            None => 1440,
        },
    )
}

/// The key of the airing comparison: like the timetable key, except that an
/// unknown minute counts as 23:59.
pub open spec fn airing_key(t: AnimeTime) -> (int, int) {
    (
        days_from_monday(t.week) as int,
        match t.minute {
            Some(m) => m@ as int,
            None => 1439,
        },
    )
}

/// The minute of the week, counted from Monday 00:00, when the minute is known.
pub open spec fn minute_of_week_spec(t: AnimeTime) -> Option<int> {
    match t.minute {
        Some(m) => Some((days_from_monday(t.week) * 1440 + m@) as int),
        None => None,
    }
}

fn compare_u32(x: u32, y: u32) -> (o: Ordering)
    ensures
        o == (if x < y {
            Ordering::Less
        } else if x == y {
            Ordering::Equal
        } else {
            Ordering::Greater
        }),
{
    if x < y {
        Ordering::Less
    } else if x == y {
        Ordering::Equal
    } else {
        Ordering::Greater
    }
}

fn day_key(t: &AnimeTime) -> (k: u32)
    ensures
        k == schedule_key(*t).0,
        k == airing_key(*t).0,
{
    t.week.num_days_from_monday()
}

fn schedule_minute_key(t: &AnimeTime) -> (k: u32)
    ensures
        k == schedule_key(*t).1,
{
    match t.minute {
        Some(m) => m.get() as u32,
        None => 1440,
    }
}

fn airing_minute_key(t: &AnimeTime) -> (k: u32)
    ensures
        k == airing_key(*t).1,
{
    match t.minute {
        Some(m) => m.get() as u32,
        None => 1439,
    }
}

impl AnimeTime {
    /// Minutes since Monday 00:00 of the slot, when its minute is known.
    pub fn minute_of_week(&self) -> (r: Option<u16>)
        ensures
            r matches Some(v) ==> minute_of_week_spec(*self) == Some(v as int),
            r is None <==> minute_of_week_spec(*self) is None,
            r matches Some(v) ==> v < 10080,
    {
        match self.minute {
            Some(minute) => {
                let day = self.week.num_days_from_monday();
                let m = minute.get();
                Some((day as u16) * 1440 + m)
            },
            None => None,
        }
    }

    /// Orders two slots by weekday from Monday, then by minute, with an
    /// unknown minute treated as 23:59.
    pub fn airing_cmp(a: &Self, b: &Self) -> (o: Ordering)
        ensures
            o == compare_pair(airing_key(*a), airing_key(*b)),
    {
        let da = day_key(a);
        let db = day_key(b);
        if da != db {
            return compare_u32(da, db);
        }
        compare_u32(airing_minute_key(a), airing_minute_key(b))
    }

    /// The timetable order: weekday from Monday, then minute, with an unknown
    /// minute after every known one. The zone is not compared.
    pub fn cmp(&self, other: &Self) -> (o: Ordering)
        ensures
            o == compare_pair(schedule_key(*self), schedule_key(*other)),
    {
        let da = day_key(self);
        let db = day_key(other);
        if da != db {
            return compare_u32(da, db);
        }
        compare_u32(schedule_minute_key(self), schedule_minute_key(other))
    }
}

impl AnimeTime {
    /// The timetable order, which is total.
    pub fn partial_cmp(&self, other: &Self) -> (o: Option<Ordering>)
        ensures
            o == Some(compare_pair(schedule_key(*self), schedule_key(*other))),
    {
        Some(self.cmp(other))
    }
}

/// Ordering of optional slots: no slot comes before every slot.
pub open spec fn compare_optional_time(a: Option<AnimeTime>, b: Option<AnimeTime>) -> Ordering {
    match (a, b) {
        (None, None) => Ordering::Equal,
        (None, Some(_)) => Ordering::Less,
        (Some(_), None) => Ordering::Greater,
        (Some(x), Some(y)) => compare_pair(schedule_key(x), schedule_key(y)),
    }
}

/// The timetable order is a total preorder: swapping the arguments reverses
/// the result, and it is transitive.
pub proof fn lemma_schedule_order_total(a: AnimeTime, b: AnimeTime, c: AnimeTime)
    ensures
        compare_pair(schedule_key(a), schedule_key(b)) == Ordering::Less <==> compare_pair(
            schedule_key(b),
            schedule_key(a),
        ) == Ordering::Greater,
        compare_pair(schedule_key(a), schedule_key(b)) == Ordering::Equal <==> compare_pair(
            schedule_key(b),
            schedule_key(a),
        ) == Ordering::Equal,
        compare_pair(schedule_key(a), schedule_key(b)) != Ordering::Greater && compare_pair(
            schedule_key(b),
            schedule_key(c),
        ) != Ordering::Greater ==> compare_pair(schedule_key(a), schedule_key(c))
            != Ordering::Greater,
{
}

/// With both minutes known, the timetable order is the order of the minutes of the week.
pub proof fn lemma_schedule_order_by_minute_of_week(a: AnimeTime, b: AnimeTime, ma: Minute, mb: Minute)
    requires
        a.minute == Some(ma),
        b.minute == Some(mb),
        ma@ < 1440,
        mb@ < 1440,
    ensures
        compare_pair(schedule_key(a), schedule_key(b)) == compare_int(
            minute_of_week_spec(a).unwrap(),
            minute_of_week_spec(b).unwrap(),
        ),
{
}

/// The order of optional slots is the order of their ranks.
pub proof fn lemma_slot_rank_orders(a: Option<AnimeTime>, b: Option<AnimeTime>)
    requires
        a matches Some(x) ==> (x.minute matches Some(m) ==> m@ < 1440),
        b matches Some(y) ==> (y.minute matches Some(m) ==> m@ < 1440),
    ensures
        compare_optional_time(a, b) == compare_int(crate::anime::slot_rank(a.deep_view()), crate::anime::slot_rank(b.deep_view())),
{
}

} // verus!
