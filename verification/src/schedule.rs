use vstd::prelude::*;
use crate::weekday::{Weekday, days_from_sunday, weekday_from_sunday};

verus! {

/// A column of the weekly timetable: a weekday, or the shows whose day is not known.
#[derive(Clone, Copy, Debug, PartialEq, Eq, Hash, Structural)]
pub enum ScheduleDay {
    Weekday(Weekday),
    Unknown,
}

/// The timetable order that starts on `today`: the seven days from today on,
/// then the column of shows without a known day.
pub open spec fn week_order(today: Weekday) -> Seq<ScheduleDay> {
    Seq::new(8, |i: int|
        if i < 7 {
            ScheduleDay::Weekday(weekday_from_sunday(i + days_from_sunday(today)))
        } else {
            ScheduleDay::Unknown
        })
}

fn day_at(offset: u32, index: u32) -> (d: ScheduleDay)
    requires
        offset < 7,
        index < 7,
    ensures
        d == ScheduleDay::Weekday(weekday_from_sunday(index + offset)),
{
    ScheduleDay::Weekday(Weekday::from_days_from_sunday(index + offset))
}

/// The timetable columns in the order in which they are shown, starting on `today`.
pub fn get_week_order(today: Weekday) -> (order: [ScheduleDay; 8])
    ensures
        order@ == week_order(today),
{
    let offset = today.num_days_from_sunday();
    let order = [
        day_at(offset, 0),
        day_at(offset, 1),
        day_at(offset, 2),
        day_at(offset, 3),
        day_at(offset, 4),
        day_at(offset, 5),
        day_at(offset, 6),
        ScheduleDay::Unknown,
    ];
    assert(order@ =~= week_order(today));
    order
}

/// `chrono::Local::now().weekday().num_days_from_monday()`: today's weekday
/// on the host's clock, Monday = 0. It depends on the clock; chrono documents
/// only that the number is below 7.
#[verifier::external_body]
fn today_days_from_monday() -> (n: u32)
    ensures
        n < 7,
{
    chrono::Datelike::weekday(&chrono::Local::now()).num_days_from_monday()
}

/// The timetable columns in the order in which they are shown, starting on
/// today's weekday by the host's clock.
pub fn get_current_week_order() -> (order: [ScheduleDay; 8])
    ensures
        exists|today: Weekday| order@ == week_order(today),
{
    let today = Weekday::from_days_from_monday(today_days_from_monday());
    get_week_order(today)
}

/// The week order starts on the given day, shows every weekday exactly once,
/// each day followed by the next, and keeps the unknown column last.
pub proof fn lemma_week_order_is_a_rotation(today: Weekday)
    ensures
        week_order(today).len() == 8,
        week_order(today)[0] == ScheduleDay::Weekday(today),
        week_order(today)[7] == ScheduleDay::Unknown,
        forall|d: Weekday| #[trigger] week_order(today).contains(ScheduleDay::Weekday(d)),
        forall|i: int, j: int|
            0 <= i < j < 8 ==> #[trigger] week_order(today)[i] != #[trigger] week_order(today)[j],
        forall|i: int|
            0 <= i < 6 ==> #[trigger] week_order(today)[i + 1] == ScheduleDay::Weekday(
                weekday_from_sunday(days_from_sunday(today) + i + 1),
            ),
{
    let o = week_order(today);
    let off = days_from_sunday(today) as int;
    assert forall|d: Weekday| #[trigger] o.contains(ScheduleDay::Weekday(d)) by {
        let k = (days_from_sunday(d) + 7 - off) % 7;
        assert(0 <= k < 7);
        assert(o[k] == ScheduleDay::Weekday(d));
    }
}

} // verus!
