//! What the YourAnimes fetcher decides: the URLs it requests, which answers
//! it accepts, and the move of the parsed shows to the reader's time zone.
//! The requests themselves are made by the caller.
use vstd::prelude::*;
use crate::anime::{Anime, AnimeView};
use crate::anime_time::ZoneConversionError;
use crate::season::{AnimeSeason, first_month, season_of_month};
use crate::render::two_digits;
use crate::text::{chars_at, chars_to_string, decimal_digits, str_chars, u64_to_decimal};
use crate::weekday::Weekday;
use crate::youranimes::convert::ID_PREFIX;
use crate::youranimes::parser::YourAnimesParseError;
use crate::zone::{CalendarDate, TimeZone, day_of_week_of, iana_zone_known, slot_in_calendar, to_zone_spec, week_in_calendar, zone_from_name};
use crate::weekday::days_from_monday;

verus! {

/// reqwest's error, carried through unchanged.
#[verifier::external_type_specification]
#[verifier::external_body]
pub struct ExRequestError(reqwest::Error);

/// Where the season pages are.
pub const LIST_URL: &'static str = "https://youranimes.tw/bangumi/";

/// Where the detail pages are.
pub const DETAIL_URL: &'static str = "https://youranimes.tw/animes/";

/// Where the API is.
pub const API_BASE_URL: &'static str = "https://youranimes.tw/api/v1/";

/// What went wrong while fetching from YourAnimes.
#[derive(Debug)]
pub enum YourAnimesError {
    /// The request could not be sent.
    Request { url: String, source: reqwest::Error },
    /// The body of the response could not be read.
    ResponseBody { url: String, source: reqwest::Error },
    /// The server answered with a status outside `200..300`.
    UnexpectedStatus { url: String, status: u16 },
    /// The response could not be read.
    Parse(YourAnimesParseError),
    /// The reader's time zone is not known.
    Timezone(ZoneConversionError),
    /// A show's broadcast slot could not be moved to the reader's zone.
    AnimeConversion { anime_id: String, source: ZoneConversionError },
}

/// `iana_time_zone::get_timezone`: the IANA name of the host's time zone.
/// It depends on the machine; nothing is stated of it.
#[verifier::external_body]
fn host_zone_name() -> Option<String> {
    iana_time_zone::get_timezone().ok()
}

/// The host's time zone, where it reports one that chrono-tz has.
pub fn system_timezone() -> (r: Result<TimeZone, ZoneConversionError>)
    ensures
        r matches Ok(z) ==> iana_zone_known(z@),
        r matches Err(e) ==> e == ZoneConversionError::UnknownTimeZone,
{
    zone_from_name(host_zone_name())
}

/// The two digits of the first month of a season, as the season pages name it.
pub open spec fn season_month(season: AnimeSeason) -> Seq<char> {
    match season {
        AnimeSeason::Winter => "01"@,
        AnimeSeason::Spring => "04"@,
        AnimeSeason::Summer => "07"@,
        AnimeSeason::Fall => "10"@,
    }
}

/// The month in a season page's URL is the season's first month, as two
/// digits, so the month names the season back; different seasons of a year
/// have different pages.
pub proof fn lemma_season_page_month(year: nat, a: AnimeSeason, b: AnimeSeason)
    ensures
        season_month(a) == two_digits(first_month(a) as nat),
        season_of_month(first_month(a)) == Some(a),
        a != b ==> LIST_URL@ + decimal_digits(year) + season_month(a) != LIST_URL@ + decimal_digits(year)
            + season_month(b),
{
    reveal_strlit("01");
    reveal_strlit("04");
    reveal_strlit("07");
    reveal_strlit("10");
    assert(season_month(a) =~= two_digits(first_month(a) as nat));
    assert(season_month(b) =~= two_digits(first_month(b) as nat));
    if a != b {
        let pa = LIST_URL@ + decimal_digits(year) + season_month(a);
        let pb = LIST_URL@ + decimal_digits(year) + season_month(b);
        let n = (LIST_URL@ + decimal_digits(year)).len() as int;
        assert(pa.subrange(n, n + 2) =~= season_month(a));
        assert(pb.subrange(n, n + 2) =~= season_month(b));
        assert(season_month(a)[0] != season_month(b)[0] || season_month(a)[1] != season_month(b)[1]);
    }
}

/// The URL of the page of a season: the year and the season's first month.
pub fn parse_url(year: u16, season: AnimeSeason) -> (r: String)
    ensures
        r@ == LIST_URL@ + decimal_digits(year as nat) + season_month(season),
{
    let month = match season {
        AnimeSeason::Winter => "01",
        AnimeSeason::Spring => "04",
        AnimeSeason::Summer => "07",
        AnimeSeason::Fall => "10",
    };
    let mut url = LIST_URL.to_owned();
    url.append(u64_to_decimal(year as u64).as_str());
    url.append(month);
    url
}

/// The query of a search, after the keyword.
pub const SEARCH_QUERY: &'static str = "&tags=&page=1&size=100&orderOption=-1&streaming=0&adult=1";

/// The URL of a search for `keyword`, which goes in as written.
pub fn parse_search_url(keyword: &str) -> (r: String)
    ensures
        r@ == API_BASE_URL@ + "animes?tk="@ + keyword@ + SEARCH_QUERY@,
{
    let mut url = API_BASE_URL.to_owned();
    url.append("animes?tk=");
    url.append(keyword);
    url.append(SEARCH_QUERY);
    url
}

/// The source's own ID within a show ID of this source.
pub open spec fn source_id_of(id: Seq<char>) -> Option<Seq<char>> {
    let prefix = ID_PREFIX@ + ":"@;
    if prefix.is_prefix_of(id) {
        Some(id.skip(prefix.len() as int))
    } else {
        None
    }
}

/// The URL of the detail page of a show of this source; an ID of another
/// source is refused.
pub fn detail_url(id: &str) -> (r: Result<String, YourAnimesParseError>)
    ensures
        r matches Ok(url) ==> source_id_of(id@) matches Some(s) && url@ == DETAIL_URL@ + s,
        r is Err <==> source_id_of(id@) is None,
        r matches Err(e) ==> e matches YourAnimesParseError::InvalidResponse { context }
            && context@ == "Unexpected YourAnimes id."@,
{
    let mut prefix = ID_PREFIX.to_owned();
    prefix.append(":");
    let chars = str_chars(id);
    let head = str_chars(prefix.as_str());
    if chars_at(&chars, 0, &head) {
        assert(chars@.subrange(0, head@.len() as int) == head@);
        assert(head@.is_prefix_of(id@));
        let parsed = chars_to_string(&chars.as_slice()[head.len()..chars.len()]);
        assert(parsed@ =~= id@.skip(head@.len() as int));
        let mut url = DETAIL_URL.to_owned();
        url.append(parsed.as_str());
        Ok(url)
    } else {
        assert(!head@.is_prefix_of(id@)) by {
            if head@.is_prefix_of(id@) {
                assert(id@.subrange(0, head@.len() as int) =~= head@);
            }
        }
        Err(YourAnimesParseError::InvalidResponse { context: "Unexpected YourAnimes id." })
    }
}

/// Whether an HTTP status is a success, `200..300`.
pub open spec fn is_success(status: u16) -> bool {
    200 <= status < 300
}

/// Accepts a successful status; any other is an error that names the URL.
pub fn ensure_successful_status(url: &str, status: u16) -> (r: Result<(), YourAnimesError>)
    ensures
        r is Ok <==> is_success(status),
        r matches Err(e) ==> e matches YourAnimesError::UnexpectedStatus { url: u, status: s } && u@
            == url@ && s == status,
{
    if 200 <= status && status < 300 {
        Ok(())
    } else {
        Err(YourAnimesError::UnexpectedStatus { url: url.to_owned(), status })
    }
}

/// A show with its slot moved to `zone`, where it has one and the move succeeds.
pub open spec fn localized(a: AnimeView, zone: Seq<char>, reference: (i32, u32, u32)) -> Option<AnimeView> {
    match a.on_air_time {
        None => Some(a),
        Some(t) => match to_zone_spec(t, zone, reference) {
            Ok(u) => Some(AnimeView { on_air_time: Some(u), ..a }),
            Err(_) => None,
        },
    }
}

/// The views of a list of shows.
pub open spec fn views(v: Seq<Anime>) -> Seq<AnimeView> {
    v.map_values(|a: Anime| a.deep_view())
}

/// A show without its broadcast slot.
pub open spec fn without_slot(a: AnimeView) -> AnimeView {
    AnimeView { on_air_time: None, ..a }
}

/// The first `n` shows of `before` move, and `after` holds them moved.
pub open spec fn moved_prefix(
    before: Seq<AnimeView>,
    after: Seq<AnimeView>,
    n: int,
    zone: Seq<char>,
    reference: (i32, u32, u32),
) -> bool {
    forall|i: int| 0 <= i < n ==> localized(#[trigger] before[i], zone, reference) == Some(after[i])
}

/// The shows from position `n` on are as they were.
pub open spec fn unchanged_from(before: Seq<AnimeView>, after: Seq<AnimeView>, n: int) -> bool {
    forall|i: int| n <= i < before.len() ==> #[trigger] after[i] == before[i]
}

/// The move stopped at show `k`, whose slot could not be moved, with error `e`.
pub open spec fn stopped_at(
    before: Seq<AnimeView>,
    after: Seq<AnimeView>,
    k: int,
    zone: Seq<char>,
    reference: (i32, u32, u32),
    e: YourAnimesError,
) -> bool {
    &&& 0 <= k < before.len()
    &&& moved_prefix(before, after, k, zone, reference)
    &&& after[k] == without_slot(before[k])
    &&& unchanged_from(before, after, k + 1)
    &&& e matches YourAnimesError::AnimeConversion { anime_id, source }
    &&& anime_id@ == before[k].id
    &&& before[k].on_air_time matches Some(t)
    &&& to_zone_spec(t, zone, reference) == Err::<(Weekday, Option<nat>, Seq<char>), ZoneConversionError>(source)
}

/// Whether the move of a show's slot fails.
pub open spec fn localize_fails(a: AnimeView, zone: Seq<char>, reference: (i32, u32, u32)) -> bool {
    localized(a, zone, reference) is None
}

/// Whether the move reaches show `i`: every show before it moves.
pub open spec fn reaches(before: Seq<AnimeView>, i: int, zone: Seq<char>, reference: (i32, u32, u32)) -> bool {
    forall|j: int| 0 <= j < i ==> !localize_fails(#[trigger] before[j], zone, reference)
}

/// Every show that the move reaches has its slot's date in chrono's calendar.
pub open spec fn stays_in_calendar(before: Seq<AnimeView>, zone: Seq<char>, reference: (i32, u32, u32)) -> bool {
    forall|i: int|
        0 <= i < before.len() && reaches(before, i, zone, reference) ==> #[trigger] slot_in_calendar(
            before[i].on_air_time,
            reference,
        )
}

/// Moves the broadcast slot of every show to `zone`, for the week of
/// `reference`. At the first show whose slot cannot be moved it stops with
/// that show's ID: the shows before it are moved, that show has lost its
/// slot, and the shows after it are as they were.
pub fn localize_to(animes: &mut Vec<Anime>, zone: &TimeZone, reference: &CalendarDate) -> (r: Result<(), YourAnimesError>)
    requires
        reference.valid(),
        stays_in_calendar(views(old(animes)@), zone@, reference@),
    ensures
        final(animes)@.len() == old(animes)@.len(),
        r is Ok ==> moved_prefix(views(old(animes)@), views(final(animes)@), old(animes)@.len() as int, zone@, reference@),
        r matches Err(e) ==> exists|k: int| stopped_at(views(old(animes)@), views(final(animes)@), k, zone@, reference@, e),
{
    let ghost before = views(animes@);
    let mut i: usize = 0;
    while i < animes.len()
        invariant
            before == views(old(animes)@),
            animes@.len() == before.len(),
            reference.valid(),
            stays_in_calendar(before, zone@, reference@),
            0 <= i <= animes@.len(),
            moved_prefix(before, views(animes@), i as int, zone@, reference@),
            unchanged_from(before, views(animes@), i as int),
        decreases animes@.len() - i,
    {
        let ghost current = views(animes@);
        assert(current[i as int] == before[i as int]);
        assert(reaches(before, i as int, zone@, reference@));
        assert(slot_in_calendar(before[i as int].on_air_time, reference@));
        let taken = animes[i].on_air_time.take();
        match taken {
            None => {
                assert(views(animes@) =~= current);
            },
            Some(time) => {
                match time.to_zone(zone, reference) {
                    Ok(moved) => {
                        animes[i].on_air_time = Some(moved);
                        assert(views(animes@) =~= current.update(i as int, views(animes@)[i as int]));
                    },
                    Err(source) => {
                        let anime_id = animes[i].id.clone();
                        let e = YourAnimesError::AnimeConversion { anime_id, source };
                        assert(views(animes@) =~= current.update(i as int, without_slot(before[i as int])));
                        assert(stopped_at(before, views(animes@), i as int, zone@, reference@, e));
                        assert(exists|k: int| stopped_at(before, views(animes@), k, zone@, reference@, e));
                        return Err(e);
                    },
                }
            },
        }
        i += 1;
    }
    Ok(())
}

/// Moves the slots as [`localize_to`] does where every day of the week of
/// `reference` is in chrono's calendar; elsewhere it gives `None` and leaves
/// the shows as they are.
pub fn try_localize_to(animes: &mut Vec<Anime>, zone: &TimeZone, reference: &CalendarDate) -> (r: Option<
    Result<(), YourAnimesError>,
>)
    requires
        reference.valid(),
    ensures
        r is None <==> !week_in_calendar(reference@),
        r is None ==> final(animes)@ == old(animes)@,
        r is Some ==> final(animes)@.len() == old(animes)@.len(),
        r matches Some(Ok(())) ==> moved_prefix(views(old(animes)@), views(final(animes)@), old(animes)@.len() as int, zone@, reference@),
        r matches Some(Err(e)) ==> exists|k: int| stopped_at(views(old(animes)@), views(final(animes)@), k, zone@, reference@, e),
{
    if !reference.week_in_calendar() {
        return None;
    }
    let ghost before = views(animes@);
    assert forall|i: int| 0 <= i < before.len() && reaches(before, i, zone@, reference@) implies #[trigger] slot_in_calendar(
        before[i].on_air_time,
        reference@,
    ) by {
        match before[i].on_air_time {
            Some((w, Some(_), _)) => {
                assert(day_of_week_of(reference@, days_from_monday(w) as int) is Some);
            },
            _ => {},
        }
    }
    Some(localize_to(animes, zone, reference))
}

} // verus!
