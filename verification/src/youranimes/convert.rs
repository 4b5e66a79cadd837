//! From the source's record of a show to the domain's [`Anime`].
use vstd::prelude::*;
use crate::anime::{Anime, AnimeSite, AnimeStreaming, AnimeView};
use crate::anime_time::AnimeTime;
use crate::json::{distinct_keys, str_eq};
use crate::youranimes::information::{AnimeInformation, AnimeInformationView};
use crate::youranimes::schema::{Streaming, SocialLink, Cast};

verus! {

/// The prefix of the IDs that this source gives its shows.
pub const ID_PREFIX: &'static str = "youranimes";

/// Where the vendor icons are.
pub const VENDOR_ICON_BASE_URL: &'static str = "https://d28s5ztqvkii64.cloudfront.net/images";

/// The time zone that the source gives broadcast times in.
pub const SOURCE_ZONE: &'static str = "Asia/Tokyo";

/// The ID of a show of this source: the prefix, a colon, and the source's ID.
pub open spec fn prefixed_id(id: Seq<char>) -> Seq<char> {
    ID_PREFIX@ + ":"@ + id
}

/// The icon of a streaming vendor.
pub open spec fn vendor_logo(vendor: Seq<char>) -> Seq<char> {
    VENDOR_ICON_BASE_URL@ + "/"@ + vendor + "_icon.webp"@
}

/// An offer whose URL an earlier offer already has.
pub open spec fn url_seen_before(s: Seq<<Streaming as DeepView>::V>, i: int) -> bool {
    exists|k: int| 0 <= k < i && #[trigger] s[k].2 == s[i].2
}

/// The offers whose URL no earlier offer has, in order.
pub open spec fn unique_by_url(s: Seq<<Streaming as DeepView>::V>) -> Seq<<Streaming as DeepView>::V>
    decreases s.len(),
{
    if s.len() == 0 {
        Seq::empty()
    } else if url_seen_before(s, s.len() - 1) {
        unique_by_url(s.drop_last())
    } else {
        unique_by_url(s.drop_last()).push(s.last())
    }
}

/// An offer as the domain shows it: the vendor's local name, the URL, and the vendor icon.
pub open spec fn offer_view(s: <Streaming as DeepView>::V) -> (Seq<char>, Seq<char>, Seq<char>) {
    (s.4, s.2, vendor_logo(s.3))
}

/// The domain's show for a source record.
pub open spec fn anime_of(info: AnimeInformationView) -> AnimeView {
    AnimeView {
        id: prefixed_id(info.id),
        name: info.name,
        description: info.description,
        on_air_time: match info.day_of_week {
            Some(week) => Some((week, info.time_in_day, SOURCE_ZONE@)),
            None => None,
        },
        is_adult: info.adult_content || info.adultstreaming.len() > 0,
        image: Some(info.cover),
        banner: None,
        cast: info.cast.map_values(|c: <Cast as DeepView>::V| c.0),
        genres: info.tags.map_values(|t: (Seq<char>, i32)| t.0),
        streaming: unique_by_url(info.streaming + info.adultstreaming).map_values(
            |s: <Streaming as DeepView>::V| offer_view(s),
        ),
        site: info.olinks,
    }
}

/// A show is adult exactly when its record flags adult content or offers
/// any adult stream: either one alone makes it adult, and a record with
/// neither gives a show that is not.
pub proof fn lemma_adult_shows(info: AnimeInformationView)
    ensures
        info.adult_content ==> anime_of(info).is_adult,
        info.adultstreaming.len() > 0 ==> anime_of(info).is_adult,
        !info.adult_content && info.adultstreaming.len() == 0 ==> !anime_of(info).is_adult,
{
}

/// The URLs of a list of offers, in order.
pub open spec fn offer_urls(s: Seq<<Streaming as DeepView>::V>) -> Seq<Seq<char>> {
    s.map_values(|x: <Streaming as DeepView>::V| x.2)
}

proof fn lemma_unique_urls_cover(s: Seq<<Streaming as DeepView>::V>, u: Seq<char>)
    ensures
        offer_urls(unique_by_url(s)).contains(u) <==> exists|k: int|
            0 <= k < s.len() && #[trigger] s[k].2 == u,
    decreases s.len(),
{
    if s.len() == 0 {
        assert(offer_urls(unique_by_url(s)) =~= Seq::<Seq<char>>::empty());
    } else {
        let n = s.len() - 1;
        let init = s.drop_last();
        lemma_unique_urls_cover(init, u);
        let d = offer_urls(unique_by_url(init));
        if exists|k: int| 0 <= k < init.len() && #[trigger] init[k].2 == u {
            let k = choose|k: int| 0 <= k < init.len() && #[trigger] init[k].2 == u;
            assert(s[k].2 == u);
        }
        if url_seen_before(s, n) {
            assert(unique_by_url(s) == unique_by_url(init));
            if exists|k: int| 0 <= k < s.len() && #[trigger] s[k].2 == u {
                let k = choose|k: int| 0 <= k < s.len() && #[trigger] s[k].2 == u;
                let k0 = choose|k: int| 0 <= k < n && #[trigger] s[k].2 == s[n].2;
                if k == n {
                    assert(init[k0].2 == u);
                } else {
                    assert(init[k].2 == u);
                }
            }
        } else {
            assert(offer_urls(unique_by_url(s)) =~= d.push(s[n].2));
            if exists|k: int| 0 <= k < s.len() && #[trigger] s[k].2 == u {
                let k = choose|k: int| 0 <= k < s.len() && #[trigger] s[k].2 == u;
                if k < n {
                    assert(init[k].2 == u);
                    assert(d.contains(u));
                    let j = choose|j: int| 0 <= j < d.len() && d[j] == u;
                    assert(d.push(s[n].2)[j] == u);
                } else {
                    assert(d.push(s[n].2)[d.len() as int] == u);
                }
            }
            if d.push(s[n].2).contains(u) {
                let j = choose|j: int| 0 <= j < d.len() + 1 && d.push(s[n].2)[j] == u;
                if j == d.len() {
                    assert(s[n].2 == u);
                } else {
                    assert(d[j] == u);
                    assert(d.contains(u));
                    let k = choose|k: int| 0 <= k < init.len() && #[trigger] init[k].2 == u;
                    assert(s[k].2 == u);
                }
            }
        }
    }
}

/// Whether `url` is among `seen`.
fn contains_url(seen: &Vec<String>, url: &String) -> (r: bool)
    ensures
        r == seen.deep_view().contains(url@),
{
    let ghost v = seen.deep_view();
    let mut i: usize = 0;
    while i < seen.len()
        invariant
            v == seen.deep_view(),
            0 <= i <= seen@.len(),
            forall|k: int| 0 <= k < i ==> v[k] != url@,
        decreases seen@.len() - i,
    {
        if str_eq(seen[i].as_str(), url.as_str()) {
            assert(v[i as int] == url@);
            return true;
        }
        i += 1;
    }
    false
}

fn logo_of(vendor: &String) -> (r: String)
    ensures
        r@ == vendor_logo(vendor@),
{
    let mut r = VENDOR_ICON_BASE_URL.to_owned();
    r.append("/");
    r.append(vendor.as_str());
    r.append("_icon.webp");
    r
}

/// The offers of `all` in order, each URL once, as the domain shows them.
fn unique_offers(all: &Vec<Streaming>) -> (r: Vec<AnimeStreaming>)
    ensures
        r.deep_view() == unique_by_url(all.deep_view()).map_values(
            |s: <Streaming as DeepView>::V| offer_view(s),
        ),
{
    let ghost a = all.deep_view();
    let mut out: Vec<AnimeStreaming> = Vec::new();
    let mut seen: Vec<String> = Vec::new();
    let mut i: usize = 0;
    while i < all.len()
        invariant
            a == all.deep_view(),
            0 <= i <= all@.len(),
            out.deep_view() == unique_by_url(a.take(i as int)).map_values(
                |s: <Streaming as DeepView>::V| offer_view(s),
            ),
            seen.deep_view() == offer_urls(unique_by_url(a.take(i as int))),
        decreases all@.len() - i,
    {
        let ghost p = a.take(i as int);
        let ghost q = a.take(i + 1);
        assert(q.drop_last() =~= p);
        assert(q.last() == a[i as int]);
        assert(a[i as int] == all@[i as int].deep_view());
        proof {
            lemma_unique_urls_cover(p, a[i as int].2);
        }
        let s = &all[i];
        if contains_url(&seen, &s.url) {
            proof {
                let k = choose|k: int| 0 <= k < p.len() && #[trigger] p[k].2 == a[i as int].2;
                assert(q[k].2 == q[q.len() - 1].2);
                assert(url_seen_before(q, q.len() - 1));
            }
        } else {
            assert(!url_seen_before(q, q.len() - 1)) by {
                if url_seen_before(q, q.len() - 1) {
                    let k = choose|k: int| 0 <= k < q.len() - 1 && #[trigger] q[k].2 == q[q.len() - 1].2;
                    assert(p[k].2 == a[i as int].2);
                }
            }
            let offer = AnimeStreaming {
                name: s.vendor_local_name.clone(),
                url: s.url.clone(),
                logo: logo_of(&s.vendor),
            };
            let ghost before_out = out.deep_view();
            let ghost before_seen = seen.deep_view();
            out.push(offer);
            seen.push(s.url.clone());
            assert(out.deep_view() =~= before_out.push(offer_view(a[i as int])));
            assert(seen.deep_view() =~= before_seen.push(a[i as int].2));
        }
        i += 1;
    }
    assert(a.take(i as int) =~= a);
    out
}

fn names_of_cast(cast: &Vec<Cast>) -> (r: Vec<String>)
    ensures
        r.deep_view() == cast.deep_view().map_values(|c: <Cast as DeepView>::V| c.0),
{
    let mut out: Vec<String> = Vec::new();
    let mut i: usize = 0;
    while i < cast.len()
        invariant
            0 <= i <= cast@.len(),
            out.deep_view() == cast.deep_view().take(i as int).map_values(|c: <Cast as DeepView>::V| c.0),
        decreases cast@.len() - i,
    {
        let ghost before = out.deep_view();
        let name = cast[i].name.clone();
        out.push(name);
        assert(out.deep_view() =~= before.push(name@));
        assert(cast.deep_view().take(i + 1).map_values(|c: <Cast as DeepView>::V| c.0) =~= cast.deep_view().take(
            i as int,
        ).map_values(|c: <Cast as DeepView>::V| c.0).push(cast.deep_view()[i as int].0));
        i += 1;
    }
    assert(cast.deep_view().take(i as int) =~= cast.deep_view());
    out
}

fn tag_names(tags: &Vec<(String, i32)>) -> (r: Vec<String>)
    ensures
        r.deep_view() == tags@.map_values(|t: (String, i32)| (t.0@, t.1)).map_values(
            |t: (Seq<char>, i32)| t.0,
        ),
{
    let ghost tv = tags@.map_values(|t: (String, i32)| (t.0@, t.1));
    let mut out: Vec<String> = Vec::new();
    let mut i: usize = 0;
    while i < tags.len()
        invariant
            tv == tags@.map_values(|t: (String, i32)| (t.0@, t.1)),
            0 <= i <= tags@.len(),
            out.deep_view() == tv.take(i as int).map_values(|t: (Seq<char>, i32)| t.0),
        decreases tags@.len() - i,
    {
        let ghost before = out.deep_view();
        let name = tags[i].0.clone();
        out.push(name);
        assert(out.deep_view() =~= before.push(name@));
        assert(tv.take(i + 1).map_values(|t: (Seq<char>, i32)| t.0) =~= tv.take(i as int).map_values(
            |t: (Seq<char>, i32)| t.0,
        ).push(tv[i as int].0));
        i += 1;
    }
    assert(tv.take(i as int) =~= tv);
    out
}

fn sites_of(links: &Vec<SocialLink>) -> (r: Vec<AnimeSite>)
    ensures
        r.deep_view() == links.deep_view(),
{
    let mut out: Vec<AnimeSite> = Vec::new();
    let mut i: usize = 0;
    while i < links.len()
        invariant
            0 <= i <= links@.len(),
            out.deep_view() == links.deep_view().take(i as int),
        decreases links@.len() - i,
    {
        let ghost before = out.deep_view();
        let site = AnimeSite { title: links[i].title.clone(), url: links[i].url.clone() };
        out.push(site);
        assert(out.deep_view() =~= before.push(site.deep_view()));
        assert(links.deep_view().take(i + 1) =~= links.deep_view().take(i as int).push(links.deep_view()[i as int]));
        i += 1;
    }
    assert(links.deep_view().take(i as int) =~= links.deep_view());
    out
}

impl AnimeInformation {
    /// The domain's show: the prefixed ID, the broadcast slot in Tokyo time
    /// where the weekday is known, adult when the record says so or has
    /// adult offers, and the offers of both lists, each URL once.
    pub fn into_anime(self) -> (a: Anime)
        ensures
            a.deep_view() == anime_of(self.deep_view()),
    {
        let ghost info = self.deep_view();
        let mut id = ID_PREFIX.to_owned();
        id.append(":");
        id.append(self.id.as_str());
        let on_air_time = match self.day_of_week {
            Some(week) => Some(AnimeTime { week, minute: self.time_in_day, zone: SOURCE_ZONE.to_owned() }),
            None => None,
        };
        let is_adult = self.adult_content || self.adultstreaming.len() > 0;
        let mut all: Vec<Streaming> = self.streaming;
        let mut adult: Vec<Streaming> = self.adultstreaming;
        let ghost adult_view = adult.deep_view();
        let ghost first_view = all.deep_view();
        all.append(&mut adult);
        assert(all.deep_view() =~= first_view + adult_view);
        let streaming = unique_offers(&all);
        let cast = names_of_cast(&self.cast);
        let genres = tag_names(&self.tags);
        let site = sites_of(&self.olinks);
        let a = Anime {
            id,
            name: self.name,
            description: self.description,
            on_air_time,
            is_adult,
            image: Some(self.cover),
            banner: None,
            cast,
            genres,
            streaming,
            site,
        };
        assert(a.deep_view() == anime_of(info));
        a
    }
}

/// Within one show, no two streaming offers share a URL, and every URL of
/// the source's offers, adult or not, is offered.
pub proof fn lemma_offers_unique_and_complete(info: AnimeInformationView)
    ensures
        forall|i: int, j: int|
            0 <= i < j < anime_of(info).streaming.len() ==> #[trigger] anime_of(info).streaming[i].1
                != #[trigger] anime_of(info).streaming[j].1,
        forall|k: int|
            0 <= k < (info.streaming + info.adultstreaming).len() ==> anime_of(info).streaming.map_values(
                |o: (Seq<char>, Seq<char>, Seq<char>)| o.1,
            ).contains(#[trigger] (info.streaming + info.adultstreaming)[k].2),
{
    let s = info.streaming + info.adultstreaming;
    lemma_unique_by_url_distinct(s);
    let o = anime_of(info).streaming;
    let u = unique_by_url(s);
    assert(o.map_values(|x: (Seq<char>, Seq<char>, Seq<char>)| x.1) =~= offer_urls(u));
    assert forall|k: int| 0 <= k < s.len() implies o.map_values(
        |x: (Seq<char>, Seq<char>, Seq<char>)| x.1,
    ).contains(#[trigger] s[k].2) by {
        lemma_unique_urls_cover(s, s[k].2);
    }
}

proof fn lemma_unique_by_url_distinct(s: Seq<<Streaming as DeepView>::V>)
    ensures
        forall|i: int, j: int|
            0 <= i < j < unique_by_url(s).len() ==> #[trigger] unique_by_url(s)[i].2
                != #[trigger] unique_by_url(s)[j].2,
    decreases s.len(),
{
    if s.len() > 0 {
        let init = s.drop_last();
        lemma_unique_by_url_distinct(init);
        if !url_seen_before(s, s.len() - 1) {
            let d = unique_by_url(init);
            assert forall|i: int, j: int|
                0 <= i < j < d.push(s.last()).len() implies #[trigger] d.push(s.last())[i].2
                    != #[trigger] d.push(s.last())[j].2 by {
                if j == d.len() {
                    lemma_unique_urls_cover(init, s.last().2);
                    if d[i].2 == s.last().2 {
                        assert(offer_urls(d)[i] == s.last().2);
                        let k = choose|k: int| 0 <= k < init.len() && #[trigger] init[k].2 == s.last().2;
                        assert(s[k].2 == s[s.len() - 1].2);
                    }
                }
            }
        }
    }
}

/// A show read from the source names each genre once: the genres are the
/// tag names, which are the keys of one JSON object.
pub proof fn lemma_genres_distinct(info: AnimeInformationView)
    requires
        distinct_keys(info.tags),
    ensures
        anime_of(info).genres.no_duplicates(),
{
    let g = anime_of(info).genres;
    assert forall|i: int, j: int| 0 <= i < g.len() && 0 <= j < g.len() && i != j implies g[i] != g[j] by {
        if i < j {
            assert(info.tags[i].0 != info.tags[j].0);
        } else {
            assert(info.tags[j].0 != info.tags[i].0);
        }
    }
}

} // verus!
