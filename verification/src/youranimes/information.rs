//! The record of one show as the YourAnimes pages hydrate it.
use vstd::prelude::*;
use crate::json::{distinct_keys, member_of, find_member};
use crate::json_decode::{FromJson, object_of, object_members, member_views, required, or_default, required_field, default_field};
use crate::minute::Minute;
use crate::weekday::Weekday;
use crate::youranimes::schema::{Cast, Favorability, SocialLink, Song, Staff, Streaming, Studio};
use crate::youranimes::wire::{weekday_from_value, weekday_of_value, time_from_value, time_of_value};

verus! {

/// One show, with the members that its page carries.
#[derive(Debug)]
pub struct AnimeInformation {
    pub id: String,
    pub adult_content: bool,
    pub adultstreaming: Vec<Streaming>,
    pub aliases: Vec<String>,
    pub ani_type: String,
    pub cast: Vec<Cast>,
    pub comment_count: i64,
    pub copyright: Option<String>,
    pub cover: String,
    /// The broadcast weekday in Japan, where the source names one.
    pub day_of_week: Option<Weekday>,
    pub description: String,
    pub duration_desc: Option<String>,
    pub episode: String,
    pub favorability: Favorability,
    pub jp_name: Option<String>,
    pub name: String,
    pub olinks: Vec<SocialLink>,
    pub season_item_date_modified: Option<String>,
    pub songs: Vec<Song>,
    pub staff: Vec<Staff>,
    pub status: String,
    pub streaming: Vec<Streaming>,
    pub studios: Vec<Studio>,
    /// Genre tags with their weights, each tag once, in the order in which
    /// serde_json's map gives the object's members.
    pub tags: Vec<(String, i32)>,
    /// The broadcast minute in Japan, where the source gives a time.
    pub time_in_day: Option<Minute>,
}

/// The mathematical view of an [`AnimeInformation`].
pub struct AnimeInformationView {
    pub id: Seq<char>,
    pub adult_content: bool,
    pub adultstreaming: Seq<<Streaming as DeepView>::V>,
    pub aliases: Seq<Seq<char>>,
    pub ani_type: Seq<char>,
    pub cast: Seq<<Cast as DeepView>::V>,
    pub comment_count: i64,
    pub copyright: Option<Seq<char>>,
    pub cover: Seq<char>,
    pub day_of_week: Option<Weekday>,
    pub description: Seq<char>,
    pub duration_desc: Option<Seq<char>>,
    pub episode: Seq<char>,
    pub favorability: i64,
    pub jp_name: Option<Seq<char>>,
    pub name: Seq<char>,
    pub olinks: Seq<(Seq<char>, Seq<char>)>,
    pub season_item_date_modified: Option<Seq<char>>,
    pub songs: Seq<<Song as DeepView>::V>,
    pub staff: Seq<<Staff as DeepView>::V>,
    pub status: Seq<char>,
    pub streaming: Seq<<Streaming as DeepView>::V>,
    pub studios: Seq<Seq<char>>,
    pub tags: Seq<(Seq<char>, i32)>,
    pub time_in_day: Option<nat>,
}

impl DeepView for AnimeInformation {
    type V = AnimeInformationView;

    open spec fn deep_view(&self) -> AnimeInformationView {
        AnimeInformationView {
            id: self.id@,
            adult_content: self.adult_content,
            adultstreaming: self.adultstreaming.deep_view(),
            aliases: self.aliases.deep_view(),
            ani_type: self.ani_type@,
            cast: self.cast.deep_view(),
            comment_count: self.comment_count,
            copyright: self.copyright.deep_view(),
            cover: self.cover@,
            day_of_week: self.day_of_week,
            description: self.description@,
            duration_desc: self.duration_desc.deep_view(),
            episode: self.episode@,
            favorability: self.favorability.counts,
            jp_name: self.jp_name.deep_view(),
            name: self.name@,
            olinks: self.olinks.deep_view(),
            season_item_date_modified: self.season_item_date_modified.deep_view(),
            songs: self.songs.deep_view(),
            staff: self.staff.deep_view(),
            status: self.status@,
            streaming: self.streaming.deep_view(),
            studios: self.studios.deep_view(),
            tags: self.tags@.map_values(|t: (String, i32)| (t.0@, t.1)),
            time_in_day: match self.time_in_day {
                Some(m) => Some(m@),
                None => None,
            },
        }
    }
}

/// Tag weights: an object whose members are all 32-bit integers.
pub open spec fn tags_model(text: Seq<char>) -> Option<Seq<(Seq<char>, i32)>> {
    match object_of(text) {
        Some(m) => if forall|i: int| 0 <= i < m.len() ==> (#[trigger] i32::json_model(m[i].1)) is Some {
            Some(m.map_values(|e: (Seq<char>, Seq<char>)| (e.0, i32::json_model(e.1).unwrap())))
        } else {
            None
        },
        None => None,
    }
}

/// Reads tag weights.
pub fn tags_from_json(text: &str) -> (r: Option<Vec<(String, i32)>>)
    ensures
        r is Some <==> tags_model(text@) is Some,
        r matches Some(t) ==> tags_model(text@) == Some(t@.map_values(|x: (String, i32)| (x.0@, x.1))),
        r matches Some(t) ==> distinct_keys(t@.map_values(|x: (String, i32)| (x.0@, x.1))),
{
    let members = object_members(text)?;
    let ghost m = member_views(members@);
    let mut out: Vec<(String, i32)> = Vec::new();
    let mut i: usize = 0;
    while i < members.len()
        invariant
            m == member_views(members@),
            object_of(text@) == Some(m),
            0 <= i <= members@.len(),
            forall|k: int| 0 <= k < i ==> (#[trigger] i32::json_model(m[k].1)) is Some,
            out@.map_values(|x: (String, i32)| (x.0@, x.1)) == m.take(i as int).map_values(
                |e: (Seq<char>, Seq<char>)| (e.0, i32::json_model(e.1).unwrap()),
            ),
        decreases members@.len() - i,
    {
        let (key, value) = (&members[i].0, &members[i].1);
        assert(m[i as int] == (members@[i as int].0@, members@[i as int].1@));
        match i32::from_json(value.as_str()) {
            Some(v) => {
                assert(i32::json_model(m[i as int].1) == Some(v));
                let ghost before = out@.map_values(|x: (String, i32)| (x.0@, x.1));
                let k = key.clone();
                assert(k@ == m[i as int].0);
                out.push((k, v));
                assert(m.take(i + 1) =~= m.take(i as int).push(m[i as int]));
                assert(out@.map_values(|x: (String, i32)| (x.0@, x.1)) =~= before.push((m[i as int].0, v)));
                assert(out@.map_values(|x: (String, i32)| (x.0@, x.1)) =~= m.take(i + 1).map_values(
                    |e: (Seq<char>, Seq<char>)| (e.0, i32::json_model(e.1).unwrap()),
                ));
            },
            None => {
                assert(i32::json_model(m[i as int].1) is None);
                return None;
            },
        }
        i += 1;
    }
    assert(m.take(i as int) =~= m);
    proof {
        let v = out@.map_values(|x: (String, i32)| (x.0@, x.1));
        assert forall|a: int, b: int| 0 <= a < b < v.len() implies #[trigger] v[a].0 != #[trigger] v[b].0 by {
            assert(v[a].0 == m[a].0);
            assert(v[b].0 == m[b].0);
        }
    }
    Some(out)
}

/// Every member of the record reads.
pub open spec fn information_reads(m: Seq<(Seq<char>, Seq<char>)>) -> bool {
    &&& required_field::<String>(m, "_id"@) is Some
    &&& default_field::<bool>(m, "adultContent"@, false) is Some
    &&& required_field::<Vec<Streaming>>(m, "adultstreaming"@) is Some
    &&& default_field::<Vec<String>>(m, "aliases"@, Seq::empty()) is Some
    &&& required_field::<String>(m, "aniType"@) is Some
    &&& default_field::<Vec<Cast>>(m, "cast"@, Seq::empty()) is Some
    &&& required_field::<i64>(m, "commentCount"@) is Some
    &&& default_field::<Option<String>>(m, "copyright"@, None) is Some
    &&& required_field::<String>(m, "cover"@) is Some
    &&& default_field::<String>(m, "description"@, Seq::empty()) is Some
    &&& default_field::<Option<String>>(m, "durationDesc"@, None) is Some
    &&& required_field::<String>(m, "episode"@) is Some
    &&& required_field::<Favorability>(m, "favorability"@) is Some
    &&& default_field::<Option<String>>(m, "jpName"@, None) is Some
    &&& required_field::<String>(m, "name"@) is Some
    &&& default_field::<Vec<SocialLink>>(m, "olinks"@, Seq::empty()) is Some
    &&& default_field::<Option<String>>(m, "seasonItemDateModified"@, None) is Some
    &&& default_field::<Vec<Song>>(m, "songs"@, Seq::empty()) is Some
    &&& default_field::<Vec<Staff>>(m, "staff"@, Seq::empty()) is Some
    &&& required_field::<String>(m, "status"@) is Some
    &&& required_field::<Vec<Streaming>>(m, "streaming"@) is Some
    &&& default_field::<Vec<Studio>>(m, "studios"@, Seq::empty()) is Some
    &&& (member_of(m, "tags"@) matches Some(t) ==> tags_model(t) is Some)
    &&& (member_of(m, "date"@) matches Some(t) ==> time_of_value(t) is Some)
}

/// What the record reads as, where every member reads.
pub open spec fn information_view(m: Seq<(Seq<char>, Seq<char>)>) -> AnimeInformationView {
    AnimeInformationView {
        id: required_field::<String>(m, "_id"@).unwrap(),
        adult_content: default_field::<bool>(m, "adultContent"@, false).unwrap(),
        adultstreaming: required_field::<Vec<Streaming>>(m, "adultstreaming"@).unwrap(),
        aliases: default_field::<Vec<String>>(m, "aliases"@, Seq::empty()).unwrap(),
        ani_type: required_field::<String>(m, "aniType"@).unwrap(),
        cast: default_field::<Vec<Cast>>(m, "cast"@, Seq::empty()).unwrap(),
        comment_count: required_field::<i64>(m, "commentCount"@).unwrap(),
        copyright: default_field::<Option<String>>(m, "copyright"@, None).unwrap(),
        cover: required_field::<String>(m, "cover"@).unwrap(),
        day_of_week: match member_of(m, "dayOfWeek"@) {
            Some(t) => weekday_of_value(t),
            None => None,
        },
        description: default_field::<String>(m, "description"@, Seq::empty()).unwrap(),
        duration_desc: default_field::<Option<String>>(m, "durationDesc"@, None).unwrap(),
        episode: required_field::<String>(m, "episode"@).unwrap(),
        favorability: required_field::<Favorability>(m, "favorability"@).unwrap(),
        jp_name: default_field::<Option<String>>(m, "jpName"@, None).unwrap(),
        name: required_field::<String>(m, "name"@).unwrap(),
        olinks: default_field::<Vec<SocialLink>>(m, "olinks"@, Seq::empty()).unwrap(),
        season_item_date_modified: default_field::<Option<String>>(m, "seasonItemDateModified"@, None).unwrap(),
        songs: default_field::<Vec<Song>>(m, "songs"@, Seq::empty()).unwrap(),
        staff: default_field::<Vec<Staff>>(m, "staff"@, Seq::empty()).unwrap(),
        status: required_field::<String>(m, "status"@).unwrap(),
        streaming: required_field::<Vec<Streaming>>(m, "streaming"@).unwrap(),
        studios: default_field::<Vec<Studio>>(m, "studios"@, Seq::empty()).unwrap(),
        tags: match member_of(m, "tags"@) {
            Some(t) => tags_model(t).unwrap(),
            None => Seq::empty(),
        },
        time_in_day: match member_of(m, "date"@) {
            Some(t) => time_of_value(t).unwrap(),
            None => None,
        },
    }
}

impl FromJson for AnimeInformation {
    open spec fn json_model(text: Seq<char>) -> Option<AnimeInformationView> {
        match object_of(text) {
            Some(m) => if information_reads(m) {
                Some(information_view(m))
            } else {
                None
            },
            None => None,
        }
    }

    fn from_json(text: &str) -> (r: Option<AnimeInformation>)
        ensures
            r matches Some(v) ==> distinct_keys(v.deep_view().tags),
    {
        let m = object_members(text)?;
        let empty_aliases: Vec<String> = Vec::new();
        assert(empty_aliases.deep_view() =~= Seq::<<String as DeepView>::V>::empty());
        let empty_cast: Vec<Cast> = Vec::new();
        assert(empty_cast.deep_view() =~= Seq::<<Cast as DeepView>::V>::empty());
        let empty_olinks: Vec<SocialLink> = Vec::new();
        assert(empty_olinks.deep_view() =~= Seq::<<SocialLink as DeepView>::V>::empty());
        let empty_songs: Vec<Song> = Vec::new();
        assert(empty_songs.deep_view() =~= Seq::<<Song as DeepView>::V>::empty());
        let empty_staff: Vec<Staff> = Vec::new();
        assert(empty_staff.deep_view() =~= Seq::<<Staff as DeepView>::V>::empty());
        let empty_studios: Vec<Studio> = Vec::new();
        assert(empty_studios.deep_view() =~= Seq::<<Studio as DeepView>::V>::empty());
        let ghost mv = member_views(m@);
        let id = required::<String>(&m, "_id")?;
        let adult_content = or_default::<bool>(&m, "adultContent", false)?;
        let adultstreaming = required::<Vec<Streaming>>(&m, "adultstreaming")?;
        let aliases = or_default::<Vec<String>>(&m, "aliases", empty_aliases)?;
        let ani_type = required::<String>(&m, "aniType")?;
        let cast = or_default::<Vec<Cast>>(&m, "cast", empty_cast)?;
        let comment_count = required::<i64>(&m, "commentCount")?;
        let copyright = or_default::<Option<String>>(&m, "copyright", None)?;
        let cover = required::<String>(&m, "cover")?;
        let description = or_default::<String>(&m, "description", String::new())?;
        let duration_desc = or_default::<Option<String>>(&m, "durationDesc", None)?;
        let episode = required::<String>(&m, "episode")?;
        let favorability = required::<Favorability>(&m, "favorability")?;
        let jp_name = or_default::<Option<String>>(&m, "jpName", None)?;
        let name = required::<String>(&m, "name")?;
        let olinks = or_default::<Vec<SocialLink>>(&m, "olinks", empty_olinks)?;
        let season_item_date_modified = or_default::<Option<String>>(&m, "seasonItemDateModified", None)?;
        let songs = or_default::<Vec<Song>>(&m, "songs", empty_songs)?;
        let staff = or_default::<Vec<Staff>>(&m, "staff", empty_staff)?;
        let status = required::<String>(&m, "status")?;
        let streaming = required::<Vec<Streaming>>(&m, "streaming")?;
        let studios = or_default::<Vec<Studio>>(&m, "studios", empty_studios)?;
        let tags = match find_member(&m, "tags") {
            Some(t) => tags_from_json(t.as_str())?,
            None => Vec::new(),
        };
        assert(distinct_keys(tags@.map_values(|x: (String, i32)| (x.0@, x.1))));
        let day_of_week = match find_member(&m, "dayOfWeek") {
            Some(t) => weekday_from_value(t.as_str()),
            None => None,
        };
        let time_in_day = match find_member(&m, "date") {
            Some(t) => time_from_value(t.as_str())?,
            None => None,
        };
        let info = AnimeInformation {
            id,
            adult_content,
            adultstreaming,
            aliases,
            ani_type,
            cast,
            comment_count,
            copyright,
            cover,
            day_of_week,
            description,
            duration_desc,
            episode,
            favorability,
            jp_name,
            name,
            olinks,
            season_item_date_modified,
            songs,
            staff,
            status,
            streaming,
            studios,
            tags,
            time_in_day,
        };
        assert(info.deep_view().tags =~= match member_of(mv, "tags"@) {
            Some(t) => tags_model(t).unwrap(),
            None => Seq::empty(),
        });
        assert(info.deep_view() == information_view(mv));
        Some(info)
    }
}

} // verus!
