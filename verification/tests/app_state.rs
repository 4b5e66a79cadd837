use anilist::anime::Anime;
use anilist::anime_time::AnimeTime;
use anilist::app_state::{AppState, ImageCache, ImageStatus, WindowType, badge_text, season_heading, sort_animes};
use anilist::minute::Minute;
use anilist::schedule::ScheduleDay;
use anilist::season::AnimeSeason;
use anilist::weekday::Weekday;

fn show(id: &str, name: &str, slot: Option<(Weekday, Option<u16>)>) -> Anime {
    Anime {
        id: id.to_owned(),
        name: name.to_owned(),
        description: String::new(),
        on_air_time: slot.map(|(week, minute)| AnimeTime {
            week,
            minute: minute.and_then(Minute::new),
            zone: "Asia/Tokyo".to_owned(),
        }),
        is_adult: false,
        image: None,
        banner: None,
        cast: vec![],
        genres: vec![],
        streaming: vec![],
        site: vec![],
    }
}

#[test]
fn sorts_shows_by_slot_without_a_slot_first_and_stably() {
    let sorted = sort_animes(vec![
        show("a", "A", Some((Weekday::Tuesday, Some(60)))),
        show("b", "B", Some((Weekday::Monday, None))),
        show("c", "C", None),
        show("d", "D", Some((Weekday::Monday, Some(1439)))),
        show("e", "E", Some((Weekday::Tuesday, Some(60)))),
        show("f", "F", None),
    ]);
    let ids: Vec<&str> = sorted.iter().map(|a| a.id.as_str()).collect();
    assert_eq!(ids, ["c", "f", "d", "b", "a", "e"]);
}

#[test]
fn lists_each_show_under_its_day_and_finds_it_by_id() {
    let mut state = AppState::default();
    state.apply_animes(vec![
        show("2", "Two", Some((Weekday::Friday, Some(600)))),
        show("1", "One", Some((Weekday::Friday, Some(60)))),
        show("3", "Three", None),
    ]);
    assert_eq!(state.week_ids(ScheduleDay::Weekday(Weekday::Friday)).unwrap(), ["1", "2"]);
    assert_eq!(state.week_ids(ScheduleDay::Unknown).unwrap(), ["3"]);
    assert_eq!(state.week_ids(ScheduleDay::Weekday(Weekday::Monday)), None);
    assert_eq!(state.anime("2").unwrap().name, "Two");
    assert!(state.anime("4").is_none());

    state.apply_animes(vec![show("4", "Four", Some((Weekday::Friday, Some(0))))]);
    assert_eq!(state.week_ids(ScheduleDay::Weekday(Weekday::Friday)).unwrap(), ["1", "2", "4"]);
    assert!(state.anime("2").is_none());
    assert_eq!(state.anime("4").unwrap().name, "Four");
}

#[test]
fn a_later_show_of_the_same_id_wins() {
    let mut state = AppState::default();
    state.apply_animes(vec![
        show("x", "Late", Some((Weekday::Sunday, Some(10)))),
        show("x", "Early", Some((Weekday::Monday, Some(10)))),
    ]);
    assert_eq!(state.anime("x").unwrap().name, "Late");
}

#[test]
fn titles_windows() {
    let mut state = AppState::default();
    state.apply_animes(vec![show("1", "One", None)]);
    assert_eq!(state.title(None), "Anilist");
    assert_eq!(state.title(Some(&WindowType::MainWindow)), "Anilist");
    assert_eq!(
        state.title(Some(&WindowType::AnimeDetailWindow { anime_id: "1".to_owned() })),
        "One"
    );
    assert_eq!(
        state.title(Some(&WindowType::AnimeDetailWindow { anime_id: "9".to_owned() })),
        "Unknown"
    );
}

#[test]
fn card_badges_and_heading() {
    assert_eq!(badge_text(&show("1", "One", Some((Weekday::Monday, Some(61))))), "@01:01");
    assert_eq!(badge_text(&show("1", "One", Some((Weekday::Monday, None)))), "時間未定");
    assert_eq!(badge_text(&show("1", "One", None)), "時間未定");
    assert_eq!(season_heading(AnimeSeason::Summer), "季節: 夏季");
}

#[test]
fn fetches_each_image_once() {
    let mut cache = ImageCache::new();
    assert_eq!(cache.status("u"), None);
    assert!(cache.request("u"));
    assert_eq!(cache.status("u"), Some(ImageStatus::Pending));
    assert!(!cache.request("u"));
    cache.finish("u", false);
    assert_eq!(cache.status("u"), Some(ImageStatus::Failed));
    assert!(!cache.request("u"));
    assert!(cache.request("v"));
    cache.finish("v", true);
    assert_eq!(cache.status("v"), Some(ImageStatus::Loaded));
}
