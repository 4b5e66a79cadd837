use vstd::prelude::*;
use crate::anime_time::AnimeTime;

verus! {

/// A related web site of a show.
#[derive(Clone, Debug, PartialEq, Eq)]
pub struct AnimeSite {
    pub title: String,
    pub url: String,
}

/// A streaming platform that carries a show.
#[derive(Clone, Debug, PartialEq, Eq)]
pub struct AnimeStreaming {
    pub name: String,
    pub url: String,
    pub logo: String,
}

/// A show of the season.
#[derive(Clone, Debug, PartialEq, Eq)]
pub struct Anime {
    pub id: String,
    pub name: String,
    pub description: String,
    pub on_air_time: Option<AnimeTime>,
    pub is_adult: bool,
    pub image: Option<String>,
    pub banner: Option<String>,
    pub cast: Vec<String>,
    pub genres: Vec<String>,
    pub streaming: Vec<AnimeStreaming>,
    pub site: Vec<AnimeSite>,
}

} // verus!

verus! {

impl DeepView for AnimeSite {
    type V = (Seq<char>, Seq<char>);

    open spec fn deep_view(&self) -> Self::V {
        (self.title@, self.url@)
    }
}

impl DeepView for AnimeStreaming {
    type V = (Seq<char>, Seq<char>, Seq<char>);

    open spec fn deep_view(&self) -> Self::V {
        (self.name@, self.url@, self.logo@)
    }
}

impl DeepView for AnimeTime {
    type V = (crate::weekday::Weekday, Option<nat>, Seq<char>);

    open spec fn deep_view(&self) -> Self::V {
        (
            self.week,
            match self.minute {
                Some(m) => Some(m@),
                None => None,
            },
            self.zone@,
        )
    }
}

/// The mathematical view of an [`Anime`].
pub struct AnimeView {
    pub id: Seq<char>,
    pub name: Seq<char>,
    pub description: Seq<char>,
    pub on_air_time: Option<<AnimeTime as DeepView>::V>,
    pub is_adult: bool,
    pub image: Option<Seq<char>>,
    pub banner: Option<Seq<char>>,
    pub cast: Seq<Seq<char>>,
    pub genres: Seq<Seq<char>>,
    pub streaming: Seq<(Seq<char>, Seq<char>, Seq<char>)>,
    pub site: Seq<(Seq<char>, Seq<char>)>,
}

impl DeepView for Anime {
    type V = AnimeView;

    open spec fn deep_view(&self) -> AnimeView {
        AnimeView {
            id: self.id@,
            name: self.name@,
            description: self.description@,
            on_air_time: self.on_air_time.deep_view(),
            is_adult: self.is_adult,
            image: self.image.deep_view(),
            banner: self.banner.deep_view(),
            cast: self.cast.deep_view(),
            genres: self.genres.deep_view(),
            streaming: self.streaming.deep_view(),
            site: self.site.deep_view(),
        }
    }
}

/// The place of an optional broadcast slot in the timetable order, as one
/// number: no slot first, then by weekday from Monday, then by minute, an
/// unknown minute after every known one. The zone does not count.
pub open spec fn slot_rank(t: Option<<AnimeTime as DeepView>::V>) -> int {
    match t {
        None => -1,
        Some((week, minute, _)) => crate::weekday::days_from_monday(week) * 1441 + match minute {
            Some(m) => m as int,
            None => 1440,
        },
    }
}

} // verus!
