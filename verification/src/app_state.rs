//! The state behind the desktop timetable: the shows of the season in
//! airing order, the columns of the week, window titles, card texts, and the
//! cache of cover images. The window system performs what these decide.
use vstd::prelude::*;
use crate::anime::{Anime, AnimeView, slot_rank};
use crate::json::str_eq;
use crate::render::clock_text;
use crate::schedule::ScheduleDay;
use crate::season::{AnimeSeason, season_label};

verus! {

broadcast use vstd::seq_lib::group_to_multiset_ensures;

/// A window of the desktop application.
#[derive(Clone, Debug, PartialEq, Eq)]
pub enum WindowType {
    MainWindow,
    AnimeDetailWindow { anime_id: String },
}

/// The timetable column of a show: its weekday, or the unknown column.
pub open spec fn day_of(a: AnimeView) -> ScheduleDay {
    match a.on_air_time {
        Some(t) => ScheduleDay::Weekday(t.0),
        None => ScheduleDay::Unknown,
    }
}

/// The rank of a show in the airing order.
pub open spec fn rank(a: AnimeView) -> int {
    slot_rank(a.on_air_time)
}

/// `x` put into `s` after every show that does not air later than it.
pub open spec fn insert_by_slot(s: Seq<AnimeView>, x: AnimeView) -> Seq<AnimeView>
    decreases s.len(),
{
    if s.len() == 0 {
        seq![x]
    } else if rank(s.last()) <= rank(x) {
        s.push(x)
    } else {
        insert_by_slot(s.drop_last(), x).push(s.last())
    }
}

/// The shows in airing order, shows of the same slot in their given order:
/// the stable sort by broadcast slot, no slot first.
pub open spec fn sort_by_slot(s: Seq<AnimeView>) -> Seq<AnimeView>
    decreases s.len(),
{
    if s.len() == 0 {
        s
    } else {
        insert_by_slot(sort_by_slot(s.drop_last()), s.last())
    }
}

/// No show airs before one that comes earlier.
pub open spec fn sorted_by_slot(s: Seq<AnimeView>) -> bool {
    forall|i: int, j: int| 0 <= i < j < s.len() ==> rank(#[trigger] s[i]) <= rank(#[trigger] s[j])
}

proof fn lemma_insert_by_slot(s: Seq<AnimeView>, x: AnimeView)
    requires
        sorted_by_slot(s),
    ensures
        sorted_by_slot(insert_by_slot(s, x)),
        insert_by_slot(s, x).to_multiset() =~= s.to_multiset().insert(x),
        forall|e: AnimeView| #[trigger] insert_by_slot(s, x).contains(e) ==> s.contains(e) || e == x,
    decreases s.len(),
{
    broadcast use vstd::seq_lib::group_seq_properties;

    if s.len() == 0 {
        assert(seq![x] =~= Seq::<AnimeView>::empty().push(x));
    } else if rank(s.last()) <= rank(x) {
    } else {
        let init = s.drop_last();
        lemma_insert_by_slot(init, x);
        let r = insert_by_slot(init, x);
        assert(s =~= init.push(s.last()));
        assert forall|i: int| 0 <= i < r.len() implies rank(#[trigger] r[i]) <= rank(s.last()) by {
            assert(r.contains(r[i]));
            if init.contains(r[i]) {
                let k = choose|k: int| 0 <= k < init.len() && init[k] == r[i];
                assert(s[k] == r[i]);
            }
        }
        assert(r.push(s.last()).to_multiset() =~= r.to_multiset().insert(s.last()));
    }
}

/// The airing order is sorted and holds the same shows as the batch.
pub proof fn lemma_sort_by_slot(s: Seq<AnimeView>)
    ensures
        sorted_by_slot(sort_by_slot(s)),
        sort_by_slot(s).to_multiset() =~= s.to_multiset(),
    decreases s.len(),
{
    if s.len() > 0 {
        lemma_sort_by_slot(s.drop_last());
        lemma_insert_by_slot(sort_by_slot(s.drop_last()), s.last());
        assert(s =~= s.drop_last().push(s.last()));
    }
}

proof fn lemma_insert_at(s: Seq<AnimeView>, x: AnimeView, j: int)
    requires
        0 <= j <= s.len(),
        forall|k: int| 0 <= k < j ==> rank(#[trigger] s[k]) <= rank(x),
        forall|k: int| j <= k < s.len() ==> rank(#[trigger] s[k]) > rank(x),
    ensures
        insert_by_slot(s, x) == s.insert(j, x),
    decreases s.len(),
{
    if s.len() == 0 {
        assert(s.insert(j, x) =~= seq![x]);
    } else if j == s.len() {
        assert(s.insert(j, x) =~= s.push(x));
    } else {
        let init = s.drop_last();
        lemma_insert_at(init, x, j);
        assert(init.insert(j, x).push(s.last()) =~= s.insert(j, x));
    }
}

/// The rank of a show.
fn rank_of(a: &Anime) -> (r: i32)
    ensures
        r == rank(a.deep_view()),
{
    match &a.on_air_time {
        None => -1,
        Some(t) => {
            let day = t.week.num_days_from_monday() as i32;
            let minute: i32 = match t.minute {
                Some(m) => m.get() as i32,
                None => 1440,
            };
            day * 1441 + minute
        },
    }
}

/// The shows in airing order (a stable sort by broadcast slot).
pub fn sort_animes(animes: Vec<Anime>) -> (r: Vec<Anime>)
    ensures
        r.deep_view() == sort_by_slot(animes.deep_view()),
{
    let ghost all = animes.deep_view();
    let mut rest = animes;
    let mut sorted: Vec<Anime> = Vec::new();
    let mut n: usize = 0;
    let total = rest.len();
    assert(all.len() == total);
    assert(all.take(0) =~= Seq::<AnimeView>::empty());
    assert(sorted.deep_view() =~= Seq::<AnimeView>::empty());
    assert(all.skip(0) =~= all);
    while rest.len() > 0
        invariant
            n + rest@.len() == all.len(),
            all.len() <= usize::MAX,
            rest.deep_view() == all.skip(n as int),
            sorted.deep_view() == sort_by_slot(all.take(n as int)),
        decreases rest@.len(),
    {
        let ghost before = sorted.deep_view();
        let ghost rest_view = rest.deep_view();
        let x = rest.remove(0);
        assert(rest.deep_view() =~= rest_view.drop_first());
        assert(rest_view[0] == x.deep_view());
        assert(all.skip(n as int)[0] == all[n as int]);
        let r = rank_of(&x);
        proof {
            lemma_sort_by_slot(all.take(n as int));
        }
        let mut j = sorted.len();
        while j > 0
            invariant
                sorted.deep_view() == before,
                sorted_by_slot(before),
                j <= before.len(),
                r == rank(x.deep_view()),
                forall|k: int| j <= k < before.len() ==> rank(#[trigger] before[k]) > r,
            ensures
                j <= before.len(),
                forall|k: int| j <= k < before.len() ==> rank(#[trigger] before[k]) > r,
                forall|k: int| 0 <= k < j ==> rank(#[trigger] before[k]) <= r,
            decreases j,
        {
            if rank_of(&sorted[j - 1]) <= r {
                assert(before[j - 1] == sorted@[j - 1].deep_view());
                break;
            }
            j -= 1;
        }
        proof {
            lemma_insert_at(before, x.deep_view(), j as int);
        }
        sorted.insert(j, x);
        assert(sorted.deep_view() =~= before.insert(j as int, x.deep_view()));
        assert(all.take(n + 1).drop_last() =~= all.take(n as int));
        n += 1;
        assert(all.skip(n as int) =~= rest_view.drop_first());
    }
    assert(all.take(n as int) =~= all);
    sorted
}

/// Shows by ID, where a later show of the same ID replaces an earlier one.
pub open spec fn anime_map(s: Seq<AnimeView>) -> Map<Seq<char>, AnimeView>
    decreases s.len(),
{
    if s.len() == 0 {
        Map::empty()
    } else {
        anime_map(s.drop_last()).insert(s.last().id, s.last())
    }
}

proof fn lemma_anime_map_lookup(s: Seq<AnimeView>, k: Seq<char>, j: int)
    requires
        -1 <= j < s.len(),
        j >= 0 ==> s[j].id == k,
        forall|l: int| j < l < s.len() ==> (#[trigger] s[l]).id != k,
    ensures
        j < 0 ==> !anime_map(s).contains_key(k),
        j >= 0 ==> anime_map(s).contains_key(k) && anime_map(s)[k] == s[j],
    decreases s.len(),
{
    if s.len() > 0 && j < s.len() - 1 {
        lemma_anime_map_lookup(s.drop_last(), k, j);
    }
}

/// The entry of the timetable for a show: its column and its ID.
pub open spec fn day_entry(a: AnimeView) -> (ScheduleDay, Seq<char>) {
    (day_of(a), a.id)
}

/// The entries of the timetable for shows, in order.
pub open spec fn day_entries(s: Seq<AnimeView>) -> Seq<(ScheduleDay, Seq<char>)> {
    s.map_values(|a: AnimeView| day_entry(a))
}

/// The IDs listed under the column `day`, in the order they were listed.
pub open spec fn ids_on(log: Seq<(ScheduleDay, Seq<char>)>, day: ScheduleDay) -> Seq<Seq<char>>
    decreases log.len(),
{
    if log.len() == 0 {
        Seq::empty()
    } else if log.last().0 == day {
        ids_on(log.drop_last(), day).push(log.last().1)
    } else {
        ids_on(log.drop_last(), day)
    }
}

/// The state of the timetable: the shows of the last list received, in
/// airing order, and every entry listed under the columns so far.
pub struct AppState {
    pub animes: Vec<Anime>,
    pub week_log: Vec<(ScheduleDay, String)>,
}

impl Default for AppState {
    fn default() -> (s: AppState)
        ensures
            s.animes@.len() == 0,
            s.week_log@.len() == 0,
    {
        AppState { animes: Vec::new(), week_log: Vec::new() }
    }
}

impl AppState {
    /// The entries listed under the columns.
    pub open spec fn log(&self) -> Seq<(ScheduleDay, Seq<char>)> {
        self.week_log@.map_values(|e: (ScheduleDay, String)| (e.0, e.1@))
    }

    /// The shows by ID.
    pub open spec fn catalog(&self) -> Map<Seq<char>, AnimeView> {
        anime_map(self.animes.deep_view())
    }

    /// The IDs under a column, where any are.
    pub open spec fn day_ids(&self, day: ScheduleDay) -> Option<Seq<Seq<char>>> {
        let ids = ids_on(self.log(), day);
        if ids.len() == 0 {
            None
        } else {
            Some(ids)
        }
    }

    /// Takes in a new list of shows: they become the shows of the state, in
    /// airing order, and each is listed under its column after what the
    /// columns already list.
    pub fn apply_animes(&mut self, animes: Vec<Anime>)
        ensures
            final(self).animes.deep_view() == sort_by_slot(animes.deep_view()),
            final(self).log() == old(self).log() + day_entries(sort_by_slot(animes.deep_view())),
    {
        let items = sort_animes(animes);
        let ghost start = self.log();
        let ghost v = items.deep_view();
        let mut i: usize = 0;
        while i < items.len()
            invariant
                v == items.deep_view(),
                0 <= i <= v.len(),
                self.log() == start + day_entries(v.take(i as int)),
            decreases v.len() - i,
        {
            let day = match &items[i].on_air_time {
                Some(t) => ScheduleDay::Weekday(t.week),
                None => ScheduleDay::Unknown,
            };
            let ghost before = self.log();
            self.week_log.push((day, items[i].id.clone()));
            assert(self.log() =~= before.push(day_entry(v[i as int])));
            assert(day_entries(v.take(i + 1)) =~= day_entries(v.take(i as int)).push(day_entry(v[i as int])));
            i += 1;
        }
        assert(v.take(i as int) =~= v);
        self.animes = items;
    }

    /// The show of an ID.
    pub fn anime(&self, id: &str) -> (r: Option<&Anime>)
        ensures
            r is Some <==> self.catalog().contains_key(id@),
            r matches Some(a) ==> self.catalog()[id@] == a.deep_view(),
    {
        let ghost s = self.animes.deep_view();
        let mut i = self.animes.len();
        while i > 0
            invariant
                s == self.animes.deep_view(),
                i <= s.len(),
                forall|l: int| i <= l < s.len() ==> (#[trigger] s[l]).id != id@,
            decreases i,
        {
            if str_eq(self.animes[i - 1].id.as_str(), id) {
                proof {
                    lemma_anime_map_lookup(s, id@, i - 1);
                }
                return Some(&self.animes[i - 1]);
            }
            i -= 1;
        }
        proof {
            lemma_anime_map_lookup(s, id@, -1);
        }
        None
    }

    /// The IDs listed under a column, where any are.
    pub fn week_ids(&self, day: ScheduleDay) -> (r: Option<Vec<String>>)
        ensures
            match r {
                Some(v) => self.day_ids(day) == Some(v.deep_view()),
                None => self.day_ids(day) is None,
            },
    {
        let ghost log = self.log();
        let mut out: Vec<String> = Vec::new();
        let mut i: usize = 0;
        assert(out.deep_view() =~= ids_on(log.take(0), day));
        while i < self.week_log.len()
            invariant
                log == self.log(),
                0 <= i <= log.len(),
                out.deep_view() == ids_on(log.take(i as int), day),
            decreases log.len() - i,
        {
            assert(log.take(i + 1).drop_last() =~= log.take(i as int));
            if self.week_log[i].0 == day {
                let ghost before = out.deep_view();
                out.push(self.week_log[i].1.clone());
                assert(out.deep_view() =~= before.push(log[i as int].1));
            }
            i += 1;
        }
        assert(log.take(i as int) =~= log);
        if out.len() == 0 {
            None
        } else {
            Some(out)
        }
    }

    /// The title of a window: the name of the show of a detail window, or
    /// "Unknown" where the show is not known; the application's name otherwise.
    pub fn title(&self, window: Option<&WindowType>) -> (s: String)
        ensures
            s@ == match window {
                Some(WindowType::AnimeDetailWindow { anime_id }) => if self.catalog().contains_key(anime_id@) {
                    self.catalog()[anime_id@].name
                } else {
                    "Unknown"@
                },
                _ => "Anilist"@,
            },
    {
        match window {
            Some(WindowType::AnimeDetailWindow { anime_id }) => match self.anime(anime_id.as_str()) {
                Some(anime) => anime.name.clone(),
                None => "Unknown".to_owned(),
            },
            _ => "Anilist".to_owned(),
        }
    }
}

/// Every show of a new list is listed under its own column.
pub proof fn lemma_listed_under_its_day(log: Seq<(ScheduleDay, Seq<char>)>, batch: Seq<AnimeView>, k: int)
    requires
        0 <= k < batch.len(),
    ensures
        ids_on(log + day_entries(sort_by_slot(batch)), day_of(batch[k])).contains(batch[k].id),
{
    lemma_sort_by_slot(batch);
    let s = sort_by_slot(batch);
    assert(batch.to_multiset().count(batch[k]) > 0) by {
        assert(batch.contains(batch[k]));
    }
    assert(s.contains(batch[k]));
    let j = choose|j: int| 0 <= j < s.len() && s[j] == batch[k];
    let all = log + day_entries(s);
    assert(all[log.len() + j] == day_entry(batch[k]));
    lemma_ids_on_contains(all, log.len() + j);
}

/// A show's column is its weekday whenever it has a slot, whether or not its
/// minute is known; only a show without a slot goes to the undecided column.
pub proof fn lemma_column_of_a_show(batch: Seq<AnimeView>, j: int)
    requires
        0 <= j < batch.len(),
    ensures
        batch[j].on_air_time matches Some(t) ==> day_entries(batch)[j] == (ScheduleDay::Weekday(t.0), batch[j].id),
        batch[j].on_air_time is None ==> day_entries(batch)[j] == (ScheduleDay::Unknown, batch[j].id),
        day_entries(batch)[j].0 == ScheduleDay::Unknown <==> batch[j].on_air_time is None,
{
}

/// After a new list is taken in, each show with a slot is listed under its
/// weekday's column, and each show without one under the undecided column.
pub proof fn lemma_taken_in_under_its_weekday(before: AppState, after: AppState, batch: Seq<AnimeView>, k: int)
    requires
        after.log() == before.log() + day_entries(sort_by_slot(batch)),
        0 <= k < batch.len(),
    ensures
        batch[k].on_air_time matches Some(t) ==> (after.day_ids(ScheduleDay::Weekday(t.0)) matches Some(ids)
            && ids.contains(batch[k].id)),
        batch[k].on_air_time is None ==> (after.day_ids(ScheduleDay::Unknown) matches Some(ids) && ids.contains(
            batch[k].id,
        )),
{
    lemma_listed_under_its_day(before.log(), batch, k);
    let day = match batch[k].on_air_time {
        Some(t) => ScheduleDay::Weekday(t.0),
        None => ScheduleDay::Unknown,
    };
    assert(day_of(batch[k]) == day);
    let ids = ids_on(after.log(), day);
    assert(ids.contains(batch[k].id));
    assert(ids.len() > 0);
}

proof fn lemma_ids_on_contains(log: Seq<(ScheduleDay, Seq<char>)>, j: int)
    requires
        0 <= j < log.len(),
    ensures
        ids_on(log, log[j].0).contains(log[j].1),
    decreases log.len(),
{
    if j == log.len() - 1 {
        assert(ids_on(log, log[j].0).last() == log[j].1);
        assert(ids_on(log, log[j].0)[ids_on(log, log[j].0).len() - 1] == log[j].1);
    } else {
        lemma_ids_on_contains(log.drop_last(), j);
        let d = log[j].0;
        let prev = ids_on(log.drop_last(), d);
        let i = choose|i: int| 0 <= i < prev.len() && prev[i] == log[j].1;
        if log.last().0 == d {
            assert(prev.push(log.last().1)[i] == log[j].1);
        }
    }
}

/// The badge of a show's card: the broadcast time, or "to be decided".
pub open spec fn badge_text_spec(a: AnimeView) -> Seq<char> {
    match a.on_air_time {
        Some((_, Some(m), _)) => "@"@ + clock_text(m),
        _ => "時間未定"@,
    }
}

/// The badge of a show's card.
pub fn badge_text(a: &Anime) -> (s: String)
    ensures
        s@ == badge_text_spec(a.deep_view()),
{
    match &a.on_air_time {
        Some(t) => match t.minute {
            Some(m) => {
                let mut s = "@".to_owned();
                s.append(m.clock().as_str());
                s
            },
            None => "時間未定".to_owned(),
        },
        None => "時間未定".to_owned(),
    }
}

/// The heading of the timetable: the season.
pub fn season_heading(season: AnimeSeason) -> (s: String)
    ensures
        s@ == "季節: "@ + season_label(season),
{
    let mut s = "季節: ".to_owned();
    s.append(season.label());
    s
}

/// Where a cover image stands.
#[derive(Clone, Copy, Debug, PartialEq, Eq, Structural)]
pub enum ImageStatus {
    /// Requested, not yet answered.
    Pending,
    /// Loaded; the image is with the caller.
    Loaded,
    /// The request failed.
    Failed,
}

/// The status of each URL, a later entry replacing an earlier one.
pub open spec fn status_map(log: Seq<(Seq<char>, ImageStatus)>) -> Map<Seq<char>, ImageStatus>
    decreases log.len(),
{
    if log.len() == 0 {
        Map::empty()
    } else {
        status_map(log.drop_last()).insert(log.last().0, log.last().1)
    }
}

/// Whether a request for `url` starts a fetch, and the statuses after it:
/// a URL that has a status is not fetched again.
pub open spec fn request_spec(m: Map<Seq<char>, ImageStatus>, url: Seq<char>) -> (bool, Map<Seq<char>, ImageStatus>) {
    if m.contains_key(url) {
        (false, m)
    } else {
        (true, m.insert(url, ImageStatus::Pending))
    }
}

/// The statuses after the answer for `url`.
pub open spec fn finish_spec(m: Map<Seq<char>, ImageStatus>, url: Seq<char>, loaded: bool) -> Map<Seq<char>, ImageStatus> {
    m.insert(
        url,
        if loaded {
            ImageStatus::Loaded
        } else {
            ImageStatus::Failed
        },
    )
}

/// The cover images that have been asked for.
pub struct ImageCache {
    pub entries: Vec<(String, ImageStatus)>,
}

/// The entries of a cache as views.
pub open spec fn entry_views(entries: Seq<(String, ImageStatus)>) -> Seq<(Seq<char>, ImageStatus)> {
    entries.map_values(|e: (String, ImageStatus)| (e.0@, e.1))
}

impl ImageCache {
    pub open spec fn statuses(&self) -> Map<Seq<char>, ImageStatus> {
        status_map(entry_views(self.entries@))
    }

    /// A cache that has been asked for nothing.
    pub fn new() -> (c: ImageCache)
        ensures
            c.statuses() == Map::<Seq<char>, ImageStatus>::empty(),
    {
        let c = ImageCache { entries: Vec::new() };
        assert(entry_views(c.entries@) =~= Seq::<(Seq<char>, ImageStatus)>::empty());
        c
    }

    /// Where the image of `url` stands, where it has been asked for.
    pub fn status(&self, url: &str) -> (r: Option<ImageStatus>)
        ensures
            r is Some <==> self.statuses().contains_key(url@),
            r matches Some(s) ==> self.statuses()[url@] == s,
    {
        let ghost log = entry_views(self.entries@);
        let mut i = self.entries.len();
        while i > 0
            invariant
                log == entry_views(self.entries@),
                i <= log.len(),
                forall|l: int| i <= l < log.len() ==> (#[trigger] log[l]).0 != url@,
            decreases i,
        {
            if str_eq(self.entries[i - 1].0.as_str(), url) {
                proof {
                    lemma_status_lookup(log, url@, i - 1);
                }
                return Some(self.entries[i - 1].1);
            }
            i -= 1;
        }
        proof {
            lemma_status_lookup(log, url@, -1);
        }
        None
    }

    /// Asks for the image of `url`: true where it is to be fetched now,
    /// which is where nothing is known of it yet; it is then pending.
    pub fn request(&mut self, url: &str) -> (fetch: bool)
        ensures
            (fetch, final(self).statuses()) == request_spec(old(self).statuses(), url@),
    {
        if self.status(url).is_some() {
            false
        } else {
            self.record(url, ImageStatus::Pending);
            true
        }
    }

    /// Records the answer for `url`.
    pub fn finish(&mut self, url: &str, loaded: bool)
        ensures
            final(self).statuses() == finish_spec(old(self).statuses(), url@, loaded),
    {
        self.record(
            url,
            if loaded {
                ImageStatus::Loaded
            } else {
                ImageStatus::Failed
            },
        );
    }

    fn record(&mut self, url: &str, status: ImageStatus)
        ensures
            final(self).statuses() == old(self).statuses().insert(url@, status),
    {
        let ghost before = entry_views(self.entries@);
        self.entries.push((url.to_owned(), status));
        assert(entry_views(self.entries@) =~= before.push((url@, status)));
        assert(entry_views(self.entries@).drop_last() =~= before);
    }
}

proof fn lemma_status_lookup(s: Seq<(Seq<char>, ImageStatus)>, k: Seq<char>, j: int)
    requires
        -1 <= j < s.len(),
        j >= 0 ==> s[j].0 == k,
        forall|l: int| j < l < s.len() ==> (#[trigger] s[l]).0 != k,
    ensures
        j < 0 ==> !status_map(s).contains_key(k),
        j >= 0 ==> status_map(s).contains_key(k) && status_map(s)[k] == s[j].1,
    decreases s.len(),
{
    if s.len() > 0 && j < s.len() - 1 {
        lemma_status_lookup(s.drop_last(), k, j);
    }
}

/// An image is fetched at most once: once requested, whatever answers come
/// in, a later request for the same URL does not fetch it again.
pub proof fn lemma_fetched_once(m: Map<Seq<char>, ImageStatus>, url: Seq<char>, other: Seq<char>, loaded: bool)
    ensures
        !request_spec(request_spec(m, url).1, url).0,
        !request_spec(finish_spec(request_spec(m, url).1, other, loaded), url).0,
{
}

} // verus!
