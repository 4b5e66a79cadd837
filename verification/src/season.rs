use vstd::prelude::*;

verus! {

/// The month number did not name a month.
#[derive(Clone, Copy, Debug, PartialEq, Eq, Structural)]
pub enum SeasonParseError {
    UnknownSeason,
}

/// A broadcast season of three months.
#[derive(Clone, Copy, Debug, PartialEq, Eq, Hash, Structural)]
pub enum AnimeSeason {
    Winter,
    Spring,
    Summer,
    Fall,
}

/// The season that a month (1 to 12) falls in.
pub open spec fn season_of_month(month: int) -> Option<AnimeSeason> {
    if 1 <= month <= 3 {
        Some(AnimeSeason::Winter)
    } else if 4 <= month <= 6 {
        Some(AnimeSeason::Spring)
    } else if 7 <= month <= 9 {
        Some(AnimeSeason::Summer)
    } else if 10 <= month <= 12 {
        Some(AnimeSeason::Fall)
    } else {
        None
    }
}

/// The first month of a season, 1, 4, 7 or 10.
pub open spec fn first_month(season: AnimeSeason) -> int {
    match season {
        AnimeSeason::Winter => 1,
        AnimeSeason::Spring => 4,
        AnimeSeason::Summer => 7,
        AnimeSeason::Fall => 10,
    }
}

impl AnimeSeason {
    /// The season of a month number; any number outside 1 to 12 is refused.
    pub fn try_from(value: u8) -> (r: Result<AnimeSeason, SeasonParseError>)
        ensures
            r is Ok <==> 1 <= value <= 12,
            r matches Ok(s) ==> season_of_month(value as int) == Some(s),
            r matches Err(e) ==> e == SeasonParseError::UnknownSeason,
    {
        if 1 <= value && value <= 3 {
            Ok(AnimeSeason::Winter)
        } else if 4 <= value && value <= 6 {
            Ok(AnimeSeason::Spring)
        } else if 7 <= value && value <= 9 {
            Ok(AnimeSeason::Summer)
        } else if 10 <= value && value <= 12 {
            Ok(AnimeSeason::Fall)
        } else {
            Err(SeasonParseError::UnknownSeason)
        }
    }

    /// The first month of the season.
    pub fn first_month(self) -> (m: u8)
        ensures
            m == first_month(self),
    {
        match self {
            AnimeSeason::Winter => 1,
            AnimeSeason::Spring => 4,
            AnimeSeason::Summer => 7,
            AnimeSeason::Fall => 10,
        }
    }

    /// The season's name as the schedule shows it.
    pub fn label(self) -> (s: &'static str)
        ensures
            s@ == season_label(self),
    {
        match self {
            AnimeSeason::Fall => "秋季",
            AnimeSeason::Spring => "春季",
            AnimeSeason::Summer => "夏季",
            AnimeSeason::Winter => "冬季",
        }
    }
}

/// The season's name as the schedule shows it.
pub open spec fn season_label(season: AnimeSeason) -> Seq<char> {
    match season {
        AnimeSeason::Fall => "秋季"@,
        AnimeSeason::Spring => "春季"@,
        AnimeSeason::Summer => "夏季"@,
        AnimeSeason::Winter => "冬季"@,
    }
}

/// The names of the seasons in calendar order, from the one that starts in January.
pub open spec fn season_names_in_order() -> Seq<Seq<char>> {
    seq!["冬季"@, "春季"@, "夏季"@, "秋季"@]
}

/// Each season is named after its place in the year: the season of a month
/// is named by the quarter the month falls in (冬季 for January to March,
/// 春季 for April to June, 夏季 for July to September, 秋季 for October to
/// December), and no two seasons share a name.
pub proof fn lemma_season_names(a: AnimeSeason, b: AnimeSeason, month: int)
    ensures
        season_label(a) == season_names_in_order()[(first_month(a) - 1) / 3],
        1 <= month <= 12 ==> season_label(season_of_month(month)->0) == season_names_in_order()[(month - 1) / 3],
        a != b ==> season_label(a) != season_label(b),
{
    reveal_strlit("冬季");
    reveal_strlit("春季");
    reveal_strlit("夏季");
    reveal_strlit("秋季");
    if a != b {
        assert(season_label(a)[0] != season_label(b)[0]);
    }
}

/// A season's first month belongs to that season.
pub proof fn lemma_first_month_in_season(season: AnimeSeason)
    ensures
        season_of_month(first_month(season)) == Some(season),
{
}

} // verus!
