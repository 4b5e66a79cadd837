//! The library as other languages see it: flat records, one error type, and
//! the parsers of response bodies that the caller fetched.
use vstd::prelude::*;
use vstd::std_specs::convert::FromSpecImpl;
use crate::anime::{Anime as CoreAnime, AnimeSite, AnimeStreaming, AnimeView};
use crate::anime_time::{AnimeTime as CoreAnimeTime, zone_error_text};
use crate::minute::Minute as CoreMinute;
use crate::schedule::{ScheduleDay as CoreScheduleDay, get_current_week_order, get_week_order, week_order as week_order_spec};
use crate::source::{AnimeParser, ParseError, SourceError, YourAnimeParser, from_youranimes_parse_error, parse_error_text};
use crate::weekday::Weekday;
use crate::youranimes::convert::ID_PREFIX;
use crate::youranimes::parser::{YourAnimesParseErrorKind, detail_page, list_page, parse_detail, parse_list, parse_search, search_response};

verus! {

/// What went wrong, for callers in other languages.
#[derive(Debug, Clone, PartialEq, Eq)]
pub enum AnilistError {
    UnsupportedSource { source_id: String },
    SourceUnavailable,
    InvalidResponse { message: String },
    TimezoneUnavailable { message: String },
    AnimeConversion { anime_id: String, message: String },
}

impl AnilistError {
    /// The message of the error.
    pub fn message(&self) -> (m: String)
        ensures
            self matches AnilistError::UnsupportedSource { source_id } ==> m@ == "unsupported anime source: "@ + source_id@,
            self is SourceUnavailable ==> m@ == "the source is unavailable"@,
            self matches AnilistError::InvalidResponse { message } ==> m@ == "invalid source response: "@ + message@,
            self matches AnilistError::TimezoneUnavailable { message } ==> m@ == "system timezone is unavailable: "@ + message@,
            self matches AnilistError::AnimeConversion { anime_id, message } ==> m@ == "failed to convert anime "@
                + anime_id@ + ": "@ + message@,
    {
        match self {
            AnilistError::UnsupportedSource { source_id } => {
                let mut m = "unsupported anime source: ".to_owned();
                m.append(source_id.as_str());
                m
            },
            AnilistError::SourceUnavailable => "the source is unavailable".to_owned(),
            AnilistError::InvalidResponse { message } => {
                let mut m = "invalid source response: ".to_owned();
                m.append(message.as_str());
                m
            },
            AnilistError::TimezoneUnavailable { message } => {
                let mut m = "system timezone is unavailable: ".to_owned();
                m.append(message.as_str());
                m
            },
            AnilistError::AnimeConversion { anime_id, message } => {
                let mut m = "failed to convert anime ".to_owned();
                m.append(anime_id.as_str());
                m.append(": ");
                m.append(message.as_str());
                m
            },
        }
    }

    /// A parse error: an invalid response, with the error's message.
    pub fn from_parse_error(error: ParseError) -> (r: AnilistError)
        ensures
            r is InvalidResponse,
            r matches AnilistError::InvalidResponse { message } && message@ == parse_error_text(error.kind()),
    {
        AnilistError::InvalidResponse { message: error.message() }
    }

    /// A source error, each kind as its own variant, with the cause's message.
    pub fn from_source_error(error: SourceError) -> (r: AnilistError)
        ensures
            error is Unavailable <==> r is SourceUnavailable,
            error is Parse <==> r is InvalidResponse,
            error matches SourceError::Parse(p) ==> r matches AnilistError::InvalidResponse { message }
                && message@ == parse_error_text(p.kind()),
            error matches SourceError::TimezoneUnavailable { source } ==> r matches AnilistError::TimezoneUnavailable {
                message,
            } && message@ == zone_error_text(source),
            error matches SourceError::AnimeConversion { anime_id, source } ==> r matches AnilistError::AnimeConversion {
                anime_id: id,
                message,
            } && id@ == anime_id@ && message@ == zone_error_text(source),
    {
        match error {
            SourceError::Unavailable => AnilistError::SourceUnavailable,
            SourceError::Parse(source) => AnilistError::from_parse_error(source),
            SourceError::TimezoneUnavailable { source } => AnilistError::TimezoneUnavailable {
                message: source.message().to_owned(),
            },
            SourceError::AnimeConversion { anime_id, source } => AnilistError::AnimeConversion {
                anime_id,
                message: source.message().to_owned(),
            },
        }
    }
}

/// A minute of the day as a plain number.
#[derive(Debug, Clone, Copy, PartialEq, Eq)]
pub struct Minute {
    pub value: u16,
}

impl From<CoreMinute> for Minute {
    fn from(value: CoreMinute) -> (r: Minute) {
        Minute { value: value.get() }
    }
}

impl FromSpecImpl<CoreMinute> for Minute {
    open spec fn obeys_from_spec() -> bool {
        true
    }

    open spec fn from_spec(value: CoreMinute) -> Minute {
        Minute { value: value@ as u16 }
    }
}

/// A timetable column.
#[derive(Debug, Clone, Copy, PartialEq, Eq)]
pub enum ScheduleDay {
    Weekday { day: Weekday },
    Unknown,
}

impl From<CoreScheduleDay> for ScheduleDay {
    fn from(value: CoreScheduleDay) -> (r: ScheduleDay) {
        match value {
            CoreScheduleDay::Weekday(day) => ScheduleDay::Weekday { day },
            CoreScheduleDay::Unknown => ScheduleDay::Unknown,
        }
    }
}

/// The record of a timetable column.
pub open spec fn column_record(value: CoreScheduleDay) -> ScheduleDay {
    match value {
        CoreScheduleDay::Weekday(day) => ScheduleDay::Weekday { day },
        CoreScheduleDay::Unknown => ScheduleDay::Unknown,
    }
}

impl FromSpecImpl<CoreScheduleDay> for ScheduleDay {
    open spec fn obeys_from_spec() -> bool {
        true
    }

    open spec fn from_spec(value: CoreScheduleDay) -> ScheduleDay {
        column_record(value)
    }
}

/// A weekly broadcast slot.
#[derive(Debug, Clone, PartialEq, Eq)]
pub struct AnimeTime {
    pub week: Weekday,
    pub minute: Option<Minute>,
    pub zone: String,
}

impl DeepView for AnimeTime {
    type V = (Weekday, Option<nat>, Seq<char>);

    open spec fn deep_view(&self) -> Self::V {
        (
            self.week,
            match self.minute {
                Some(m) => Some(m.value as nat),
                None => None,
            },
            self.zone@,
        )
    }
}

/// The record of a slot.
pub open spec fn time_record(value: CoreAnimeTime) -> AnimeTime {
    AnimeTime {
        week: value.week,
        minute: match value.minute {
            Some(m) => Some(Minute { value: m@ as u16 }),
            None => None,
        },
        zone: value.zone,
    }
}

impl From<CoreAnimeTime> for AnimeTime {
    fn from(value: CoreAnimeTime) -> (r: AnimeTime) {
        AnimeTime {
            week: value.week,
            minute: match value.minute {
                Some(m) => Some(Minute { value: m.get() }),
                None => None,
            },
            zone: value.zone,
        }
    }
}

impl FromSpecImpl<CoreAnimeTime> for AnimeTime {
    open spec fn obeys_from_spec() -> bool {
        true
    }

    open spec fn from_spec(value: CoreAnimeTime) -> AnimeTime {
        time_record(value)
    }
}

/// A show, as a flat record.
#[derive(Debug, Clone, PartialEq, Eq)]
pub struct Anime {
    pub id: String,
    pub name: String,
    pub description: String,
    pub on_air_time: Option<AnimeTime>,
    pub is_adult: bool,
    pub image: Option<String>,
    pub banner: Option<String>,
    pub cast: Vec<String>,
    pub genres: Vec<String>,
    pub streaming: Vec<AnimeStreaming>,
    pub sites: Vec<AnimeSite>,
}

impl DeepView for Anime {
    type V = AnimeView;

    open spec fn deep_view(&self) -> AnimeView {
        AnimeView {
            id: self.id@,
            name: self.name@,
            description: self.description@,
            on_air_time: self.on_air_time.deep_view(),
            is_adult: self.is_adult,
            image: self.image.deep_view(),
            banner: self.banner.deep_view(),
            cast: self.cast.deep_view(),
            genres: self.genres.deep_view(),
            streaming: self.streaming.deep_view(),
            site: self.sites.deep_view(),
        }
    }
}

/// The record of a show.
pub open spec fn anime_record(value: CoreAnime) -> Anime {
    Anime {
        id: value.id,
        name: value.name,
        description: value.description,
        on_air_time: match value.on_air_time {
            Some(t) => Some(time_record(t)),
            None => None,
        },
        is_adult: value.is_adult,
        image: value.image,
        banner: value.banner,
        cast: value.cast,
        genres: value.genres,
        streaming: value.streaming,
        sites: value.site,
    }
}

impl From<CoreAnime> for Anime {
    fn from(value: CoreAnime) -> (r: Anime) {
        let on_air_time = match value.on_air_time {
            Some(t) => Some(AnimeTime::from(t)),
            None => None,
        };
        Anime {
            id: value.id,
            name: value.name,
            description: value.description,
            on_air_time,
            is_adult: value.is_adult,
            image: value.image,
            banner: value.banner,
            cast: value.cast,
            genres: value.genres,
            streaming: value.streaming,
            sites: value.site,
        }
    }
}

impl FromSpecImpl<CoreAnime> for Anime {
    open spec fn obeys_from_spec() -> bool {
        true
    }

    open spec fn from_spec(value: CoreAnime) -> Anime {
        anime_record(value)
    }
}

/// A record shows the same show as the show it was made from.
pub proof fn lemma_record_keeps_the_show(value: CoreAnime)
    requires
        value.on_air_time matches Some(t) ==> (t.minute matches Some(m) ==> m@ < 1440),
    ensures
        anime_record(value).deep_view() == value.deep_view(),
{
}

fn use_minute_invariant(a: &CoreAnime)
    ensures
        a.on_air_time matches Some(t) ==> (t.minute matches Some(m) ==> m@ < 1440),
{
    match &a.on_air_time {
        Some(t) => match t.minute {
            Some(m) => {
                let _ = m.get();
            },
            None => {},
        },
        None => {},
    }
}

/// The records of shows, in order.
pub fn anime_records(values: Vec<CoreAnime>) -> (r: Vec<Anime>)
    ensures
        r.deep_view() == values.deep_view(),
{
    let ghost all = values.deep_view();
    let mut rest = values;
    let mut out: Vec<Anime> = Vec::new();
    let total = rest.len();
    assert(all.skip(0) =~= all);
    assert(out.deep_view() =~= all.take(0));
    while rest.len() > 0
        invariant
            out@.len() + rest@.len() == all.len(),
            all.len() == total,
            rest.deep_view() == all.skip(out@.len() as int),
            out.deep_view() == all.take(out@.len() as int),
        decreases rest@.len(),
    {
        let ghost before = out.deep_view();
        let ghost rest_view = rest.deep_view();
        let a = rest.remove(0);
        assert(rest.deep_view() =~= rest_view.drop_first());
        assert(rest_view[0] == a.deep_view());
        let n = out.len();
        assert(all.skip(n as int)[0] == all[n as int]);
        use_minute_invariant(&a);
        proof {
            lemma_record_keeps_the_show(a);
        }
        let record = Anime::from(a);
        out.push(record);
        assert(out.deep_view() =~= before.push(record.deep_view()));
        assert(all.take(n + 1) =~= all.take(n as int).push(all[n as int]));
        assert(all.skip(n + 1) =~= rest_view.drop_first());
    }
    assert(all.take(all.len() as int) =~= all);
    out
}

/// The columns of the timetable that starts on `today`.
pub open spec fn week_columns(today: Weekday) -> Seq<ScheduleDay> {
    week_order_spec(today).map_values(|d: CoreScheduleDay| column_record(d))
}

fn columns(order: [CoreScheduleDay; 8]) -> (r: Vec<ScheduleDay>)
    ensures
        r@ == order@.map_values(|d: CoreScheduleDay| column_record(d)),
{
    let mut out: Vec<ScheduleDay> = Vec::new();
    let mut i: usize = 0;
    while i < 8
        invariant
            0 <= i <= 8,
            out@ == order@.take(i as int).map_values(|d: CoreScheduleDay| column_record(d)),
        decreases 8 - i,
    {
        out.push(ScheduleDay::from(order[i]));
        assert(order@.take(i + 1) =~= order@.take(i as int).push(order@[i as int]));
        assert(out@ =~= order@.take(i + 1).map_values(|d: CoreScheduleDay| column_record(d)));
        i += 1;
    }
    assert(order@.take(8) =~= order@);
    out
}

/// The timetable columns in the order in which they are shown, starting on `today`.
pub fn week_order(today: Weekday) -> (r: Vec<ScheduleDay>)
    ensures
        r@ == week_columns(today),
{
    columns(get_week_order(today))
}

/// The timetable columns in the order in which they are shown, starting on
/// today's weekday by the host's clock.
pub fn current_week_order() -> (r: Vec<ScheduleDay>)
    ensures
        exists|today: Weekday| r@ == week_columns(today),
{
    let order = get_current_week_order();
    let r = columns(order);
    assert(exists|today: Weekday| r@ == week_columns(today)) by {
        let today = choose|today: Weekday| order@ == week_order_spec(today);
        assert(r@ == week_columns(today));
    }
    r
}

/// The shows of a YourAnimes season page fetched by the caller.
pub fn your_animes_parse_list(content: String) -> (r: Result<Vec<Anime>, AnilistError>)
    ensures
        r matches Ok(v) ==> list_page(content@) == Ok::<Seq<AnimeView>, YourAnimesParseErrorKind>(v.deep_view()),
        r is Err <==> list_page(content@) is Err,
        r matches Err(e) ==> e is InvalidResponse,
{
    match parse_list(content.as_str()) {
        Ok(items) => Ok(anime_records(items)),
        Err(e) => Err(AnilistError::from_parse_error(from_youranimes_parse_error(e))),
    }
}

/// The show of a YourAnimes detail page fetched by the caller.
pub fn your_animes_parse_detail(content: String) -> (r: Result<Anime, AnilistError>)
    ensures
        r matches Ok(a) ==> detail_page(content@) == Ok::<AnimeView, YourAnimesParseErrorKind>(a.deep_view()),
        r is Err <==> detail_page(content@) is Err,
        r matches Err(e) ==> e is InvalidResponse,
{
    match parse_detail(content.as_str()) {
        Ok(a) => {
            use_minute_invariant(&a);
            proof {
                lemma_record_keeps_the_show(a);
            }
            Ok(Anime::from(a))
        },
        Err(e) => Err(AnilistError::from_parse_error(from_youranimes_parse_error(e))),
    }
}

/// The prefixed IDs of a YourAnimes search response, in response order.
/// The caller fetches the detail pages to get whole shows.
pub fn your_animes_parse_search(content: String) -> (r: Result<Vec<String>, AnilistError>)
    ensures
        r matches Ok(ids) ==> search_response(content@) == Ok::<Seq<Seq<char>>, YourAnimesParseErrorKind>(ids.deep_view()),
        r is Err <==> search_response(content@) is Err,
        r matches Err(e) ==> e is InvalidResponse,
{
    match parse_search(content.as_str()) {
        Ok(ids) => Ok(ids),
        Err(e) => Err(AnilistError::from_parse_error(from_youranimes_parse_error(e))),
    }
}

/// The parser of the responses of one source, chosen by the source's name.
pub struct NativeAnimeParser {
    parser: YourAnimeParser,
}

impl NativeAnimeParser {
    /// The parser of the source `source_id`; only YourAnimes is known.
    pub fn new(source_id: String) -> (r: Result<NativeAnimeParser, AnilistError>)
        ensures
            r is Ok <==> source_id@ == ID_PREFIX@,
            r matches Err(e) ==> e matches AnilistError::UnsupportedSource { source_id: s } && s@ == source_id@,
    {
        if crate::json::str_eq(source_id.as_str(), ID_PREFIX) {
            Ok(NativeAnimeParser { parser: YourAnimeParser::new() })
        } else {
            Err(AnilistError::UnsupportedSource { source_id })
        }
    }

    /// The shows of a season page.
    pub fn parse_list(&self, content: String) -> (r: Result<Vec<Anime>, AnilistError>)
        ensures
            r matches Ok(v) ==> list_page(content@) == Ok::<Seq<AnimeView>, YourAnimesParseErrorKind>(v.deep_view()),
            r is Err <==> list_page(content@) is Err,
    {
        match self.parser.parse_list(content.as_str()) {
            Ok(items) => Ok(anime_records(items)),
            Err(e) => Err(AnilistError::from_parse_error(e)),
        }
    }

    /// The show of a detail page.
    pub fn parse_detail(&self, content: String) -> (r: Result<Anime, AnilistError>)
        ensures
            r matches Ok(a) ==> detail_page(content@) == Ok::<AnimeView, YourAnimesParseErrorKind>(a.deep_view()),
            r is Err <==> detail_page(content@) is Err,
    {
        match self.parser.parse_detail(content.as_str()) {
            Ok(a) => {
            use_minute_invariant(&a);
            proof {
                lemma_record_keeps_the_show(a);
            }
            Ok(Anime::from(a))
        },
            Err(e) => Err(AnilistError::from_parse_error(e)),
        }
    }

    /// The IDs of the hits of a search response.
    pub fn parse_search(&self, content: String) -> (r: Result<Vec<String>, AnilistError>)
        ensures
            r matches Ok(ids) ==> search_response(content@) == Ok::<Seq<Seq<char>>, YourAnimesParseErrorKind>(
                ids.deep_view(),
            ),
            r is Err <==> search_response(content@) is Err,
    {
        match self.parser.parse_search(content.as_str()) {
            Ok(ids) => Ok(ids),
            Err(e) => Err(AnilistError::from_parse_error(e)),
        }
    }
}

} // verus!
