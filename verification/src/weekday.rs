use vstd::prelude::*;

verus! {

/// A day of the week, Monday first.
#[derive(Clone, Copy, Debug, PartialEq, Eq, Hash, Structural)]
pub enum Weekday {
    Monday,
    Tuesday,
    Wednesday,
    Thursday,
    Friday,
    Saturday,
    Sunday,
}

/// Zero-based position of a day in a week that starts on Monday.
pub open spec fn days_from_monday(day: Weekday) -> nat {
    match day {
        Weekday::Monday => 0,
        Weekday::Tuesday => 1,
        Weekday::Wednesday => 2,
        Weekday::Thursday => 3,
        Weekday::Friday => 4,
        Weekday::Saturday => 5,
        Weekday::Sunday => 6,
    }
}

/// Zero-based position of a day in a week that starts on Sunday.
pub open spec fn days_from_sunday(day: Weekday) -> nat {
    (days_from_monday(day) + 1) % 7
}

/// The day at position `n` of a week that starts on Sunday (`n` taken modulo 7).
pub open spec fn weekday_from_sunday(n: int) -> Weekday {
    let k = n % 7;
    if k == 0 {
        Weekday::Sunday
    } else if k == 1 {
        Weekday::Monday
    } else if k == 2 {
        Weekday::Tuesday
    } else if k == 3 {
        Weekday::Wednesday
    } else if k == 4 {
        Weekday::Thursday
    } else if k == 5 {
        Weekday::Friday
    } else {
        Weekday::Saturday
    }
}

/// The day at position `n` of a week that starts on Monday (`n` taken modulo 7).
pub open spec fn weekday_from_monday(n: int) -> Weekday {
    weekday_from_sunday(n + 1)
}

impl Weekday {
    pub fn num_days_from_monday(self) -> (n: u32)
        ensures
            n == days_from_monday(self),
            n < 7,
    {
        match self {
            Weekday::Monday => 0,
            Weekday::Tuesday => 1,
            Weekday::Wednesday => 2,
            Weekday::Thursday => 3,
            Weekday::Friday => 4,
            Weekday::Saturday => 5,
            Weekday::Sunday => 6,
        }
    }

    pub fn num_days_from_sunday(self) -> (n: u32)
        ensures
            n == days_from_sunday(self),
            n < 7,
    {
        match self {
            Weekday::Sunday => 0,
            Weekday::Monday => 1,
            Weekday::Tuesday => 2,
            Weekday::Wednesday => 3,
            Weekday::Thursday => 4,
            Weekday::Friday => 5,
            Weekday::Saturday => 6,
        }
    }

    /// The day at position `n % 7` of a week that starts on Sunday.
    pub fn from_days_from_sunday(n: u32) -> (day: Weekday)
        ensures
            day == weekday_from_sunday(n as int),
            days_from_sunday(day) == n % 7,
    {
        let k = n % 7;
        if k == 0 {
            Weekday::Sunday
        } else if k == 1 {
            Weekday::Monday
        } else if k == 2 {
            Weekday::Tuesday
        } else if k == 3 {
            Weekday::Wednesday
        } else if k == 4 {
            Weekday::Thursday
        } else if k == 5 {
            Weekday::Friday
        } else {
            Weekday::Saturday
        }
    }

    /// The day at position `n % 7` of a week that starts on Monday.
    pub fn from_days_from_monday(n: u32) -> (day: Weekday)
        ensures
            day == weekday_from_monday(n as int),
            days_from_monday(day) == n % 7,
    {
        let k = n % 7;
        if k == 0 {
            Weekday::Monday
        } else if k == 1 {
            Weekday::Tuesday
        } else if k == 2 {
            Weekday::Wednesday
        } else if k == 3 {
            Weekday::Thursday
        } else if k == 4 {
            Weekday::Friday
        } else if k == 5 {
            Weekday::Saturday
        } else {
            Weekday::Sunday
        }
    }
}

/// Counting from Sunday and counting from Monday name the same day.
pub proof fn lemma_weekday_positions(day: Weekday)
    ensures
        weekday_from_sunday(days_from_sunday(day) as int) == day,
        weekday_from_monday(days_from_monday(day) as int) == day,
        days_from_monday(day) < 7,
        days_from_sunday(day) < 7,
{
}

} // verus!
