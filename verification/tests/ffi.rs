use anilist::ffi::{
    AnilistError, NativeAnimeParser, ScheduleDay, week_order, your_animes_parse_detail, your_animes_parse_list,
    your_animes_parse_search,
};
use anilist::source::{ParseError, SourceError};
use anilist::weekday::Weekday;

fn html(field: &str, list: bool) -> String {
    let anime = r#"{
        "_id": "1108", "adultstreaming": [], "aniType": "TV",
        "commentCount": 0, "cover": "https://example.com/cover.webp",
        "episode": "12", "favorability": {"average": 5.0, "counts": 1},
        "name": "小林家的龍女僕S", "description": "中文 description",
        "status": "finished", "streaming": [], "dayOfWeek": 1,
        "date": "2026-07-06 00:30"
    }"#;
    let value = if list { format!("[{anime}]") } else { anime.to_owned() };
    let row = format!(r#"["$", "$L1", null, {{"{field}": {value}}}]"#);
    let row = if list { row } else { format!("[null, {row}]") };
    let row: serde_json::Value = serde_json::from_str(&row).unwrap();
    format!(
        "<script>self.__next_f.push([1,{}])</script>",
        serde_json::to_string(&format!("1:{row}\n")).unwrap()
    )
}

#[test]
fn parses_response_bodies_without_an_async_runtime() {
    let list = your_animes_parse_list(html("animes", true)).unwrap();
    let detail = your_animes_parse_detail(html("anime", false)).unwrap();
    assert_eq!(list.len(), 1);
    assert_eq!(list[0].id, "youranimes:1108");
    assert_eq!(detail.id, list[0].id);
    assert_eq!(detail.name, "小林家的龍女僕S");
    assert_eq!(detail.description, "中文 description");
    let time = detail.on_air_time.unwrap();
    assert_eq!(time.week, Weekday::Monday);
    assert_eq!(time.minute.unwrap().value, 30);
    assert_eq!(time.zone, "Asia/Tokyo");
}

#[test]
fn search_returns_ids_for_caller_owned_detail_requests() {
    assert_eq!(
        your_animes_parse_search(r#"{"result":[{"_id":"1108"},{"_id":"42"}]}"#.into()).unwrap(),
        ["youranimes:1108", "youranimes:42"]
    );
}

#[test]
fn invalid_bodies_return_ffi_errors() {
    assert!(matches!(
        your_animes_parse_list("<html/>".into()),
        Err(AnilistError::InvalidResponse { .. })
    ));
    assert!(matches!(
        your_animes_parse_detail("<html/>".into()),
        Err(AnilistError::InvalidResponse { .. })
    ));
    assert!(matches!(
        your_animes_parse_search("broken json".into()),
        Err(AnilistError::InvalidResponse { .. })
    ));
}

#[test]
fn orders_week_using_the_hosts_day_without_a_clock() {
    let days = week_order(Weekday::Saturday);
    assert_eq!(days.len(), 8);
    assert_eq!(days[0], ScheduleDay::Weekday { day: Weekday::Saturday });
    assert_eq!(days[1], ScheduleDay::Weekday { day: Weekday::Sunday });
    assert_eq!(days[7], ScheduleDay::Unknown);
}

#[test]
fn the_native_parser_knows_only_youranimes() {
    assert!(matches!(
        NativeAnimeParser::new("elsewhere".to_owned()),
        Err(AnilistError::UnsupportedSource { ref source_id }) if source_id == "elsewhere"
    ));
    let parser = NativeAnimeParser::new("youranimes".to_owned()).unwrap();
    assert_eq!(parser.parse_list(html("animes", true)).unwrap()[0].name, "小林家的龍女僕S");
    assert_eq!(parser.parse_detail(html("anime", false)).unwrap().id, "youranimes:1108");
    assert_eq!(parser.parse_search(r#"{"result":[]}"#.to_owned()).unwrap().len(), 0);
    assert!(parser.parse_detail("<html/>".to_owned()).is_err());
}

#[test]
fn errors_carry_their_messages_across() {
    let e = AnilistError::from_parse_error(ParseError::InvalidResponse { context: "stage" });
    assert_eq!(e, AnilistError::InvalidResponse { message: "invalid source response: stage".to_owned() });
    assert_eq!(e.message(), "invalid source response: invalid source response: stage");
    let e = AnilistError::from_source_error(SourceError::TimezoneUnavailable {
        source: anilist::anime_time::ZoneConversionError::UnknownTimeZone,
    });
    assert_eq!(e, AnilistError::TimezoneUnavailable { message: "unknown time zone".to_owned() });
    assert_eq!(AnilistError::from_source_error(SourceError::Unavailable), AnilistError::SourceUnavailable);
    assert_eq!(
        AnilistError::UnsupportedSource { source_id: "x".to_owned() }.message(),
        "unsupported anime source: x"
    );
}
