use chrono::Datelike;
use anilist::json_decode::FromJson;
use anilist::minute::Minute;
use anilist::season::AnimeSeason;
use anilist::weekday::Weekday;
use anilist::youranimes::extractor::{JsonPath, NextJsExtractor};
use anilist::youranimes::fetch::{
    YourAnimesError, detail_url, ensure_successful_status, localize_to, parse_search_url, parse_url,
};
use anilist::youranimes::information::AnimeInformation;
use anilist::youranimes::parser::{YourAnimesParseError, parse_detail, parse_list, parse_search};
use anilist::source::{AnimeParser, YourAnimeParser};
use anilist::zone::{CalendarDate, TimeZone};

fn anime_json(day_of_week: &str, date: &str) -> String {
    format!(
        r#"{{
            "_id": "anime-id",
            "adultstreaming": [{{
                "title": "Prime",
                "url": "https://example.com/watch",
                "vendor": "prime"
            }}],
            "aniType": "TV",
            "cast": [{{ "name": "Actor", "role": "Lead" }}],
            "commentCount": 0,
            "cover": "https://example.com/cover.webp",
            "cross": false,
            "dayOfWeek": {day_of_week},
            "date": {date},
            "episode": "1",
            "favorability": {{ "average": 5.0, "counts": 1 }},
            "hasNews": false,
            "isFavorite": false,
            "name": "Anime",
            "newsDate": "",
            "olinks": [{{ "title": "Official", "url": "https://example.com" }}],
            "playDate": "",
            "playEps": 1,
            "playTotal": 12,
            "scheduleDate": "",
            "seriesStatus": "",
            "songs": [],
            "staff": [],
            "status": "",
            "streaming": [{{
                "title": "Prime",
                "url": "https://example.com/watch",
                "vendor": "prime"
            }}],
            "studios": [],
            "tags": {{ "Action": 1, "Fantasy": 2, "Comedy": 3 }},
            "twAgent": "",
            "updatedTimestamp": ""
        }}"#
    )
}

fn quoted(s: &str) -> String {
    serde_json::to_string(s).unwrap()
}

#[test]
fn deserializes_upstream_defaults_and_schedule() {
    let information = AnimeInformation::from_json(&anime_json("0", &quoted("2026-07-05 23:45"))).unwrap();

    assert!(!information.adult_content);
    assert!(information.aliases.is_empty());
    assert_eq!(information.description, "");
    assert_eq!(information.day_of_week, Some(Weekday::Sunday));
    assert_eq!(information.time_in_day.map(Minute::get), Some(23 * 60 + 45));
    assert_eq!(information.streaming[0].vendor_local_name, "prime");
}

#[test]
fn treats_upstream_schedule_markers_as_unknown() {
    let information = AnimeInformation::from_json(&anime_json(&quoted("未定"), &quoted("未定"))).unwrap();

    assert_eq!(information.day_of_week, None);
    assert_eq!(information.time_in_day, None);
}

#[test]
fn converts_to_domain_anime_and_removes_duplicate_streams() {
    let information = AnimeInformation::from_json(&anime_json("1", &quoted("2026-07-06 12:30"))).unwrap();

    let anime = information.into_anime();

    assert_eq!(anime.id, "youranimes:anime-id");
    assert_eq!(anime.on_air_time.unwrap().week, Weekday::Monday);
    assert!(anime.is_adult);
    assert_eq!(anime.cast, ["Actor"]);
    let mut genres = anime.genres;
    genres.sort();
    assert_eq!(genres, ["Action", "Comedy", "Fantasy"]);
    assert_eq!(anime.streaming.len(), 1);
    assert_eq!(anime.streaming[0].name, "prime");
    assert_eq!(
        anime.streaming[0].logo,
        "https://d28s5ztqvkii64.cloudfront.net/images/prime_icon.webp"
    );
    assert_eq!(anime.site[0].title, "Official");
}

#[test]
fn deserializes_every_upstream_weekday_and_rejects_non_weekdays() {
    let cases = [
        ("0", Some(Weekday::Sunday)),
        ("1", Some(Weekday::Monday)),
        ("2", Some(Weekday::Tuesday)),
        ("3", Some(Weekday::Wednesday)),
        ("4", Some(Weekday::Thursday)),
        ("5", Some(Weekday::Friday)),
        ("6", Some(Weekday::Saturday)),
        ("\"1\"", Some(Weekday::Monday)),
        ("7", None),
        ("-1", None),
        ("null", None),
    ];

    for (raw, expected) in cases {
        let information = AnimeInformation::from_json(&anime_json(raw, "null")).unwrap();
        assert_eq!(information.day_of_week, expected);
    }
}

#[test]
fn preserves_tokyo_time_for_host_owned_conversion() {
    let information = AnimeInformation::from_json(&anime_json("1", &quoted("2026-07-06 00:30"))).unwrap();

    let anime = information.into_anime();
    let time = anime.on_air_time.unwrap();

    assert_eq!(time.week, Weekday::Monday);
    assert_eq!(time.minute.map(Minute::get), Some(30));
    assert_eq!(time.zone, "Asia/Tokyo");
}

#[test]
fn validates_time_boundaries() {
    for (raw, expected) in [("00:00", 0), ("23:59", 23 * 60 + 59)] {
        let information =
            AnimeInformation::from_json(&anime_json("1", &quoted(&format!("2026-07-06 {raw}")))).unwrap();
        assert_eq!(information.time_in_day.map(Minute::get), Some(expected));
    }

    for raw in ["24:00", "23:60", "22:60", "-1:00", "ab:cd", "70000:00"] {
        let result = AnimeInformation::from_json(&anime_json("1", &quoted(&format!("2026-07-06 {raw}"))));
        assert!(result.is_none(), "{raw} should be rejected");
    }
}

fn anime() -> String {
    r#"{
        "_id": "1108", "adultstreaming": [], "aniType": "TV",
        "commentCount": 0, "cover": "https://example.com/cover.webp",
        "episode": "12", "favorability": {"average": 5.0, "counts": 1},
        "name": "小林家的龍女僕S", "description": "Quotes: \"hello\"\n中文",
        "status": "finished", "streaming": [], "dayOfWeek": null
    }"#
    .to_owned()
}

fn html(row: &str) -> String {
    let row: serde_json::Value = serde_json::from_str(row).unwrap();
    let payload = format!("1:I[42,[],\"default\"]\n2:{row}\n");
    let split = payload.find("description").unwrap() + 5;
    [&payload[..split], &payload[split..]]
        .into_iter()
        .map(|chunk| format!("<script>self.__next_f.push([1,{}]);</script>", quoted(chunk)))
        .collect()
}

#[test]
fn list_extracts_split_flight_model_and_converts_anime() {
    let result = parse_list(&html(&format!(r#"["$", "$L1", null, {{"animes": [{}]}}]"#, anime()))).unwrap();
    assert_eq!(result.len(), 1);
    assert_eq!(result[0].id, "youranimes:1108");
    assert_eq!(result[0].name, "小林家的龍女僕S");
    assert_eq!(result[0].description, "Quotes: \"hello\"\n中文");
}

#[test]
fn detail_extracts_split_flight_model_and_converts_anime() {
    let result =
        parse_detail(&html(&format!(r#"[null, ["$", "$L1", null, {{"anime": {}}}]]"#, anime()))).unwrap();
    assert_eq!(result.id, "youranimes:1108");
    assert_eq!(result.name, "小林家的龍女僕S");
    assert_eq!(result.description, "Quotes: \"hello\"\n中文");
}

#[test]
fn missing_hydration_and_wrong_anime_shape_return_errors() {
    assert!(parse_list("<html></html>").is_err());
    assert!(parse_detail("<html></html>").is_err());
    assert!(
        parse_list(&html(r#"["$", "$L1", null, {"animes": [{"description":"invalid"}]}]"#)).is_err()
    );
}

#[test]
fn search_returns_prefixed_ids_without_detail_hydration() {
    let result = parse_search(r#"{"result":[{"_id":"1108"},{"_id":"42"}]}"#).unwrap();

    assert_eq!(result, ["youranimes:1108", "youranimes:42"]);
}

#[test]
fn search_parse_errors_identify_the_response_stage() {
    let error = parse_search("not json").unwrap_err();

    assert!(error.message().contains("YourAnimes search response"));
}

#[test]
fn search_of_the_wrong_shape_is_a_json_error() {
    let error = parse_search(r#"{"results":[]}"#).unwrap_err();
    assert!(matches!(error, YourAnimesParseError::Json { context: "YourAnimes search response", .. }));
    assert_eq!(parse_search(r#"{"result":[]}"#).unwrap(), Vec::<String>::new());
}

#[test]
fn localizes_parsed_schedules_after_parsing() {
    let body = r#"<script id="__NEXT_DATA__">["$","$L1",null,{"animes":[{"_id":"1108","adultstreaming":[],"aniType":"TV","commentCount":0,"cover":"cover","episode":"12","favorability":{"average":5.0,"counts":1},"name":"Anime","status":"finished","streaming":[],"dayOfWeek":1,"date":"2026-07-06 00:30"}]}]</script>"#;
    let mut animes = YourAnimeParser::new().parse_list(body).unwrap();
    assert_eq!(animes[0].on_air_time.as_ref().unwrap().zone, "Asia/Tokyo");
    localize_to(
        &mut animes,
        &TimeZone::named("Asia/Taipei").unwrap(),
        &CalendarDate::from_ymd(2026, 7, 6).unwrap(),
    )
    .unwrap();
    let time = animes[0].on_air_time.as_ref().unwrap();
    assert_eq!(time.zone, "Asia/Taipei");
    assert_eq!(time.week, Weekday::Sunday);
    assert_eq!(time.minute.unwrap().get(), 23 * 60 + 30);
}

#[test]
fn localizing_stops_at_the_first_show_that_cannot_move() {
    let mut animes = Vec::new();
    let good = anilist::anime_time::AnimeTime {
        week: Weekday::Monday,
        minute: Minute::new(30),
        zone: "Asia/Tokyo".to_owned(),
    };
    let bad = anilist::anime_time::AnimeTime { zone: "Nowhere/City".to_owned(), ..good.clone() };
    let mut shows = Vec::new();
    for (id, time) in [("a", good.clone()), ("b", bad), ("c", good)] {
        let mut show = parse_detail(&html(&format!(r#"[null, ["$", "$L1", null, {{"anime": {}}}]]"#, anime()))).unwrap();
        show.id = id.to_owned();
        show.on_air_time = Some(time);
        shows.push(show);
    }
    animes.append(&mut shows);
    let error = localize_to(
        &mut animes,
        &TimeZone::named("UTC").unwrap(),
        &CalendarDate::from_ymd(2026, 7, 6).unwrap(),
    )
    .unwrap_err();
    assert!(matches!(
        error,
        YourAnimesError::AnimeConversion { ref anime_id, source: anilist::anime_time::ZoneConversionError::UnknownTimeZone } if anime_id == "b"
    ));
    assert_eq!(animes[0].on_air_time.as_ref().unwrap().zone, "UTC");
    assert!(animes[1].on_air_time.is_none());
    assert_eq!(animes[2].on_air_time.as_ref().unwrap().zone, "Asia/Tokyo");
}

#[test]
fn unsuccessful_http_status_includes_the_url_and_status() {
    let error = ensure_successful_status("https://example.com/anime", 502).unwrap_err();

    assert!(matches!(
        error,
        YourAnimesError::UnexpectedStatus { url, status }
            if url == "https://example.com/anime" && status == 502
    ));
    assert!(ensure_successful_status("https://example.com/anime", 200).is_ok());
    assert!(ensure_successful_status("https://example.com/anime", 299).is_ok());
    assert!(ensure_successful_status("https://example.com/anime", 300).is_err());
}

#[test]
fn builds_the_urls_of_pages_and_searches() {
    assert_eq!(parse_url(2020, AnimeSeason::Summer), "https://youranimes.tw/bangumi/202007");
    assert_eq!(parse_url(2026, AnimeSeason::Winter), "https://youranimes.tw/bangumi/202601");
    assert_eq!(
        parse_search_url("女僕"),
        "https://youranimes.tw/api/v1/animes?tk=女僕&tags=&page=1&size=100&orderOption=-1&streaming=0&adult=1"
    );
    assert_eq!(detail_url("youranimes:1108").unwrap(), "https://youranimes.tw/animes/1108");
    assert!(matches!(
        detail_url("other:1108"),
        Err(YourAnimesParseError::InvalidResponse { context: "Unexpected YourAnimes id." })
    ));
}

#[test]
fn extracts_a_value_from_the_matching_flight_push() {
    let body = format!(
        "<script>self.__next_f.push([1,{}])</script><script>self.__next_f.push([1,{}])</script>",
        quoted("0:{\"other\":1}"),
        quoted("5:[\"$\",{\"animes\":[{\"name\":\"x\"}]}]\n")
    );
    let name: String = NextJsExtractor::extract(
        &body,
        "animes",
        &[JsonPath::Index(1), JsonPath::Key("animes"), JsonPath::Index(0), JsonPath::Key("name")],
    )
    .unwrap();
    assert_eq!(name, "x");
    let missing = NextJsExtractor::extract::<String>(&body, "animes", &[JsonPath::Key("nothing")]);
    assert!(matches!(missing, Err(YourAnimesParseError::InvalidResponse { context: "Next.js target data was not found" })));
    let none = NextJsExtractor::extract::<String>(&body, "absent marker", &[]);
    assert!(matches!(none, Err(YourAnimesParseError::InvalidResponse { context: "matching Next.js data frame was not found" })));
}

#[test]
fn localizing_is_refused_where_the_week_leaves_the_calendar() {
    let mut shows = vec![parse_detail(&html(&format!(r#"[null, ["$", "$L1", null, {{"anime": {}}}]]"#, anime()))).unwrap()];
    shows[0].on_air_time = Some(anilist::anime_time::AnimeTime {
        week: Weekday::Monday,
        minute: Minute::new(30),
        zone: "Asia/Tokyo".to_owned(),
    });
    let utc = TimeZone::named("UTC").unwrap();
    let last = CalendarDate::from_ymd(262142, 12, 31).unwrap();
    let result = anilist::youranimes::fetch::try_localize_to(&mut shows, &utc, &last);
    if chrono::NaiveDate::MAX.weekday() == chrono::Weekday::Sun {
        assert!(result.is_some());
    } else {
        assert!(result.is_none());
        assert_eq!(shows[0].on_air_time.as_ref().unwrap().zone, "Asia/Tokyo");
    }
    let ok = anilist::youranimes::fetch::try_localize_to(&mut shows, &utc, &CalendarDate::from_ymd(2026, 7, 6).unwrap());
    assert!(matches!(ok, Some(Ok(()))));
    assert_eq!(shows[0].on_air_time.as_ref().unwrap().zone, "UTC");
}
