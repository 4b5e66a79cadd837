use anilist::anime::{Anime, AnimeSite, AnimeStreaming};
use anilist::anime_time::{AnimeTime, ZoneConversionError};
use anilist::minute::Minute;
use anilist::schedule::{ScheduleDay, get_current_week_order, get_week_order};
use anilist::season::{AnimeSeason, SeasonParseError};
use anilist::weekday::Weekday;
use anilist::zone::{CalendarDate, TimeZone};
use chrono::Datelike;

#[test]
fn normal_parse() {
    let noon = 12 * 60 as u16;
    let minute = Minute::new(noon).unwrap();

    assert_eq!(minute.get(), noon);
}

#[test]
fn test_over_minute() {
    let over: u16 = 1440;
    let minute = Minute::new(over);

    assert_eq!(minute, None);
}

#[test]
fn test_u16_max() {
    let max: u16 = u16::MAX;
    let minute = Minute::new(max);

    assert_eq!(minute, None);
}

fn test_and_expect(range: std::ops::RangeInclusive<u8>, expect: AnimeSeason) {
    for month in range {
        let season = AnimeSeason::try_from(month).unwrap();
        assert_eq!(season, expect);
    }
}

#[test]
fn test_normal_parse() {
    test_and_expect(1..=3, AnimeSeason::Winter);
    test_and_expect(4..=6, AnimeSeason::Spring);
    test_and_expect(7..=9, AnimeSeason::Summer);
    test_and_expect(10..=12, AnimeSeason::Fall);
}

#[test]
fn test_out_of_range() {
    let month: u8 = 13;
    let season = AnimeSeason::try_from(month);

    assert_eq!(season, Err(SeasonParseError::UnknownSeason))
}

#[test]
fn test_u8_max() {
    let max = u8::MAX;
    let season = AnimeSeason::try_from(max);

    assert_eq!(season, Err(SeasonParseError::UnknownSeason))
}

#[test]
fn season_zero_is_refused_and_first_months_map_back() {
    assert_eq!(AnimeSeason::try_from(0), Err(SeasonParseError::UnknownSeason));
    for season in [AnimeSeason::Winter, AnimeSeason::Spring, AnimeSeason::Summer, AnimeSeason::Fall] {
        assert_eq!(AnimeSeason::try_from(season.first_month()), Ok(season));
    }
    assert_eq!(AnimeSeason::Fall.label(), "秋季");
    assert_eq!(AnimeSeason::Winter.label(), "冬季");
}

#[test]
fn test_today_format() {
    let today = chrono::Local::now().weekday().num_days_from_monday();
    let current_week = ScheduleDay::Weekday(Weekday::from_days_from_monday(today));
    let ordered = get_current_week_order();

    assert_eq!(current_week, ordered[0]);
}

#[test]
fn week_order_uses_the_callers_day_and_keeps_unknown_last() {
    let order = get_week_order(Weekday::Saturday);
    assert_eq!(order[0], ScheduleDay::Weekday(Weekday::Saturday));
    assert_eq!(order[1], ScheduleDay::Weekday(Weekday::Sunday));
    assert_eq!(order[6], ScheduleDay::Weekday(Weekday::Friday));
    assert_eq!(order[7], ScheduleDay::Unknown);
}

#[test]
fn week_order_from_sunday_is_the_plain_week() {
    let order = get_week_order(Weekday::Sunday);
    let expected = [
        Weekday::Sunday,
        Weekday::Monday,
        Weekday::Tuesday,
        Weekday::Wednesday,
        Weekday::Thursday,
        Weekday::Friday,
        Weekday::Saturday,
    ];
    for (i, day) in expected.iter().enumerate() {
        assert_eq!(order[i], ScheduleDay::Weekday(*day));
    }
    assert_eq!(order[7].label(), "時間未定");
    assert_eq!(order[1].label(), "Mon");
}

fn anime_time(week: Weekday, minute: Option<u16>, zone: &str) -> AnimeTime {
    AnimeTime {
        week,
        minute: minute.and_then(Minute::new),
        zone: zone.to_owned(),
    }
}

fn date(year: i32, month: u32, day: u32) -> CalendarDate {
    CalendarDate::from_ymd(year, month, day).unwrap()
}

#[test]
fn converts_tokyo_monday_after_midnight_to_taipei_sunday() {
    let taipei = TimeZone::named("Asia/Taipei").unwrap();
    let converted = anime_time(Weekday::Monday, Some(30), "Asia/Tokyo")
        .to_zone(&taipei, &date(2026, 7, 6))
        .unwrap();

    assert_eq!(converted.week, Weekday::Sunday);
    assert_eq!(converted.minute.map(Minute::get), Some(23 * 60 + 30));
    assert_eq!(converted.zone, "Asia/Taipei");
}

#[test]
fn rejects_nonexistent_new_york_dst_local_time() {
    let tokyo = TimeZone::named("Asia/Tokyo").unwrap();
    let error = anime_time(Weekday::Sunday, Some(2 * 60 + 30), "America/New_York")
        .to_zone(&tokyo, &date(2026, 3, 8))
        .unwrap_err();

    assert_eq!(error, ZoneConversionError::NonexistentLocalTime);
}

#[test]
fn rejects_ambiguous_new_york_dst_local_time() {
    let tokyo = TimeZone::named("Asia/Tokyo").unwrap();
    let error = anime_time(Weekday::Sunday, Some(60 + 30), "America/New_York")
        .to_zone(&tokyo, &date(2026, 11, 1))
        .unwrap_err();

    assert_eq!(error, ZoneConversionError::AmbiguousLocalTime);
}

#[test]
fn rejects_unknown_source_timezone() {
    let tokyo = TimeZone::named("Asia/Tokyo").unwrap();
    let error = anime_time(Weekday::Monday, Some(30), "Unknown/Timezone")
        .to_zone(&tokyo, &date(2026, 7, 6))
        .unwrap_err();

    assert_eq!(error, ZoneConversionError::UnknownTimeZone);
}

#[test]
fn retains_unknown_minutes_without_needing_a_source_timezone() {
    let taipei = TimeZone::named("Asia/Taipei").unwrap();
    let converted = anime_time(Weekday::Monday, None, "Unknown/Timezone")
        .to_zone(&taipei, &date(2026, 7, 6))
        .unwrap();

    assert_eq!(converted.week, Weekday::Monday);
    assert_eq!(converted.minute, None);
    assert_eq!(converted.zone, "Asia/Taipei");
}

#[test]
fn the_week_of_the_reference_is_used_whatever_its_weekday() {
    let utc = TimeZone::named("UTC").unwrap();
    for day in 6..=12 {
        let converted = anime_time(Weekday::Wednesday, Some(10 * 60), "Asia/Tokyo")
            .to_zone(&utc, &date(2026, 7, day))
            .unwrap();
        assert_eq!(converted.week, Weekday::Wednesday);
        assert_eq!(converted.minute.map(Minute::get), Some(60));
        assert_eq!(converted.zone, "UTC");
    }
}

#[test]
fn calendar_and_zone_names_are_checked() {
    assert!(CalendarDate::from_ymd(2026, 2, 29).is_none());
    assert!(CalendarDate::from_ymd(2024, 2, 29).is_some());
    assert!(CalendarDate::from_ymd(2026, 13, 1).is_none());
    let d = date(2026, 7, 6);
    assert_eq!((d.year(), d.month(), d.day()), (2026, 7, 6));
    assert!(TimeZone::named("Asia/Tokyo").is_some());
    assert!(TimeZone::named("asia/tokyo").is_none());
    assert_eq!(TimeZone::named("Europe/Paris").unwrap().name(), "Europe/Paris");
    assert_eq!(ZoneConversionError::AmbiguousLocalTime.message(), "local time is ambiguous");
}

#[test]
fn minute_of_week_and_orders() {
    let a = anime_time(Weekday::Tuesday, Some(90), "Asia/Tokyo");
    assert_eq!(a.minute_of_week(), Some(1440 + 90));
    assert_eq!(anime_time(Weekday::Sunday, None, "Asia/Tokyo").minute_of_week(), None);
    let b = anime_time(Weekday::Tuesday, None, "Asia/Tokyo");
    let c = anime_time(Weekday::Monday, Some(1439), "UTC");
    assert_eq!(a.cmp(&b), std::cmp::Ordering::Less);
    assert_eq!(b.cmp(&a), std::cmp::Ordering::Greater);
    assert_eq!(c.cmp(&a), std::cmp::Ordering::Less);
    assert_eq!(a.partial_cmp(&a), Some(std::cmp::Ordering::Equal));
    let d = anime_time(Weekday::Tuesday, Some(1439), "UTC");
    assert_eq!(AnimeTime::airing_cmp(&b, &d), std::cmp::Ordering::Equal);
    assert_eq!(AnimeTime::airing_cmp(&a, &d), std::cmp::Ordering::Less);
    assert_eq!(Minute::new(9 * 60 + 5).unwrap().clock(), "09:05");
    assert_eq!(Minute::last().clock(), "23:59");
}

fn sample_anime() -> Anime {
    Anime {
        id: "youranimes:1".to_owned(),
        name: "Name".to_owned(),
        description: "first\r\nsecond\n\nthird\n".to_owned(),
        on_air_time: Some(anime_time(Weekday::Friday, Some(21 * 60 + 5), "Asia/Tokyo")),
        is_adult: false,
        image: Some("https://example.com/i.webp".to_owned()),
        banner: None,
        cast: vec!["A".to_owned(), "B".to_owned()],
        genres: vec![],
        streaming: vec![AnimeStreaming {
            name: "prime".to_owned(),
            url: "https://example.com/w".to_owned(),
            logo: "https://example.com/l.webp".to_owned(),
        }],
        site: vec![AnimeSite { title: "Official".to_owned(), url: "https://example.com".to_owned() }],
    }
}

#[test]
fn renders_the_card_of_a_show() {
    let lines = [
        "+-- Anime: Name",
        "|   ID: youranimes:1",
        "|   Adult: no",
        "|   Airing: Fri 21:05 (Asia/Tokyo)",
        "|-- Description",
        "|   first",
        "|   second",
        "|   ",
        "|   third",
        "|-- Artwork",
        "|   Image: https://example.com/i.webp",
        "|   Banner: (none)",
        "|-- Cast (2)",
        "|   - A",
        "|   - B",
        "|-- Genres (0)",
        "|   (none)",
        "|-- Streaming (1)",
        "|   - prime: https://example.com/w",
        "|     Logo: https://example.com/l.webp",
        "`-- Sites (1)",
        "    - Official: https://example.com",
    ];
    let expected: String = lines.iter().map(|l| format!("{l}\n")).collect();
    assert_eq!(sample_anime().render(), expected);
}

#[test]
fn renders_missing_times_descriptions_and_lists() {
    let mut anime = sample_anime();
    anime.description = String::new();
    anime.on_air_time = None;
    anime.streaming.clear();
    anime.site.clear();
    anime.is_adult = true;
    let text = anime.render();
    assert!(text.contains("|   Adult: yes\n"));
    assert!(text.contains("|   Airing: not scheduled\n"));
    assert!(text.contains("|-- Description\n|   (none)\n"));
    assert!(text.contains("|-- Streaming (0)\n|   (none)\n"));
    assert!(text.ends_with("`-- Sites (0)\n    (none)\n"));
    anime.on_air_time = Some(anime_time(Weekday::Monday, None, "Asia/Tokyo"));
    assert!(anime.render().contains("|   Airing: Mon time TBD (Asia/Tokyo)\n"));
    let mut out = String::from("x");
    anilist::render::write_string_list(&mut out, "Genres", &vec!["Action".to_owned()]);
    assert_eq!(out, "x|-- Genres (1)\n|   - Action\n");
}

#[test]
fn lines_follow_str_lines() {
    for text in ["a\nb", "a\r\nb\r\n", "a\n\n", "\n", "x\r", "one"] {
        let expected: Vec<String> = text.lines().map(String::from).collect();
        assert_eq!(anilist::render::text_lines(text), expected, "{text:?}");
    }
}

#[test]
fn an_unknown_minute_moves_for_any_reference_date() {
    let taipei = TimeZone::named("Asia/Taipei").unwrap();
    let last = date(262142, 12, 31);
    let converted = anime_time(Weekday::Friday, None, "Unknown/Timezone")
        .to_zone(&taipei, &last)
        .unwrap();
    assert_eq!(converted.week, Weekday::Friday);
    assert_eq!(converted.minute, None);
    assert_eq!(converted.zone, "Asia/Taipei");
}

#[test]
fn the_week_at_the_ends_of_the_calendar() {
    let last = date(262142, 12, 31);
    assert_eq!(last.week_in_calendar(), chrono::NaiveDate::MAX.weekday() == chrono::Weekday::Sun);
    let first = date(-262143, 1, 1);
    assert_eq!(first.week_in_calendar(), chrono::NaiveDate::MIN.weekday() == chrono::Weekday::Mon);
    assert!(date(2026, 7, 6).week_in_calendar());
}

#[test]
fn a_minute_is_its_number() {
    for v in [0u16, 1, 719, 1439] {
        let m = Minute::new(v).unwrap();
        assert_eq!(Minute::new(m.get()), Some(m));
    }
    assert_eq!(Minute::new(Minute::last().get()), Some(Minute::last()));
    assert_eq!(Minute::zero().get(), 0);
}

#[test]
fn minutes_are_ordered_by_their_number() {
    let early = Minute::new(5).unwrap();
    let late = Minute::new(600).unwrap();
    assert!(early < late);
    assert!(late > early);
    assert!(early <= Minute::new(5).unwrap());
    assert_eq!(early.partial_cmp(&late), Some(std::cmp::Ordering::Less));
    let mut all = vec![late, Minute::last(), early, Minute::zero()];
    all.sort();
    assert_eq!(all, vec![Minute::zero(), early, late, Minute::last()]);
}
