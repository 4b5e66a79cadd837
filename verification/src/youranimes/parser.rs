//! Reading YourAnimes responses: season and detail pages through their
//! Next.js hydration data, and the search API's JSON.
use vstd::prelude::*;
use crate::anime::{Anime, AnimeView};
use crate::json::{json_custom_error, json_normalize};
use crate::json_decode::FromJson;
use crate::nextjs::document::{NextJsData, deserialize_spec, parse_html};
use crate::nextjs::error::{ParseError, ParseErrorKind};
use crate::youranimes::convert::{ID_PREFIX, anime_of, prefixed_id};
use crate::youranimes::information::{AnimeInformation, AnimeInformationView};
use crate::youranimes::search::SearchResult;

verus! {

/// Why a YourAnimes response could not be read.
#[derive(Debug)]
pub enum YourAnimesParseError {
    /// A JSON body did not parse or did not have the expected shape.
    Json { context: &'static str, source: serde_json::Error },
    /// The response parsed but lacks what the stage needs.
    InvalidResponse { context: &'static str },
    /// The page's hydration data could not be read.
    NextJs(ParseError),
}

/// What a [`YourAnimesParseError`] says, without serde_json's error.
pub enum YourAnimesParseErrorKind {
    Json(Seq<char>),
    InvalidResponse(Seq<char>),
    NextJs(ParseErrorKind),
}

impl YourAnimesParseError {
    pub open spec fn kind(&self) -> YourAnimesParseErrorKind {
        match self {
            YourAnimesParseError::Json { context, .. } => YourAnimesParseErrorKind::Json(context@),
            YourAnimesParseError::InvalidResponse { context } => YourAnimesParseErrorKind::InvalidResponse(
                context@,
            ),
            YourAnimesParseError::NextJs(e) => YourAnimesParseErrorKind::NextJs(e.kind()),
        }
    }

    /// The message of the error.
    pub fn message(&self) -> (m: String)
        ensures
            self matches YourAnimesParseError::Json { context, .. } ==> m@ == "invalid "@ + context@,
            self matches YourAnimesParseError::InvalidResponse { context } ==> m@ == context@,
            self is NextJs ==> m@ == "invalid YourAnimes page"@,
    {
        match self {
            YourAnimesParseError::Json { context, .. } => {
                let mut m = "invalid ".to_owned();
                m.append(context);
                m
            },
            YourAnimesParseError::InvalidResponse { context } => (*context).to_owned(),
            YourAnimesParseError::NextJs(_) => "invalid YourAnimes page".to_owned(),
        }
    }
}

/// The value at `pointer` in the hydration data of the page `html`, read as `T`.
pub open spec fn page_value<T: FromJson>(html: Seq<char>, pointer: Seq<char>) -> Result<<T as DeepView>::V, ParseErrorKind> {
    match parse_html(html) {
        Ok(data) => deserialize_spec::<T>(data, pointer),
        Err(e) => Err(e),
    }
}

/// The domain's shows for a list of source records, in order.
pub open spec fn animes_of(infos: Seq<AnimeInformationView>) -> Seq<AnimeView> {
    infos.map_values(|i: AnimeInformationView| anime_of(i))
}

/// What a season page gives: the shows under `/3/animes`.
pub open spec fn list_page(html: Seq<char>) -> Result<Seq<AnimeView>, YourAnimesParseErrorKind> {
    match page_value::<Vec<AnimeInformation>>(html, "/3/animes"@) {
        Ok(infos) => Ok(animes_of(infos)),
        Err(e) => Err(YourAnimesParseErrorKind::NextJs(e)),
    }
}

/// What a detail page gives: the show under `/1/3/anime`.
pub open spec fn detail_page(html: Seq<char>) -> Result<AnimeView, YourAnimesParseErrorKind> {
    match page_value::<AnimeInformation>(html, "/1/3/anime"@) {
        Ok(info) => Ok(anime_of(info)),
        Err(e) => Err(YourAnimesParseErrorKind::NextJs(e)),
    }
}

/// What a search response gives: the prefixed IDs of its hits, in order.
pub open spec fn search_response(body: Seq<char>) -> Result<Seq<Seq<char>>, YourAnimesParseErrorKind> {
    match SearchResult::json_model(body) {
        Some(ids) => Ok(ids.map_values(|id: Seq<char>| prefixed_id(id))),
        None => Err(YourAnimesParseErrorKind::Json("YourAnimes search response"@)),
    }
}

/// Reads the hydration data of `html` and the value at `pointer` in it.
fn read_page<T: FromJson>(html: &str, pointer: &str) -> (r: Result<T, ParseError>)
    ensures
        r matches Ok(v) ==> page_value::<T>(html@, pointer@) == Ok::<<T as DeepView>::V, ParseErrorKind>(v.deep_view()),
        r matches Err(e) ==> page_value::<T>(html@, pointer@) == Err::<<T as DeepView>::V, ParseErrorKind>(e.kind()),
{
    match NextJsData::parse(html) {
        Ok(data) => data.deserialize::<T>(pointer),
        Err(e) => Err(e),
    }
}

/// The shows of a season page, in page order.
pub fn parse_list(content: &str) -> (r: Result<Vec<Anime>, YourAnimesParseError>)
    ensures
        r matches Ok(v) ==> list_page(content@) == Ok::<Seq<AnimeView>, YourAnimesParseErrorKind>(v.deep_view()),
        r matches Err(e) ==> list_page(content@) == Err::<Seq<AnimeView>, YourAnimesParseErrorKind>(e.kind()),
{
    let mut infos = match read_page::<Vec<AnimeInformation>>(content, "/3/animes") {
        Ok(v) => v,
        Err(e) => return Err(YourAnimesParseError::NextJs(e)),
    };
    let ghost all = infos.deep_view();
    let mut out: Vec<Anime> = Vec::new();
    while infos.len() > 0
        invariant
            out.len() <= all.len(),
            infos.deep_view() == all.skip(out.len() as int),
            out.deep_view() == animes_of(all.take(out.len() as int)),
        decreases infos.len(),
    {
        let ghost before = out.deep_view();
        let ghost rest = infos.deep_view();
        let info = infos.remove(0);
        assert(infos.deep_view() =~= rest.drop_first());
        assert(rest[0] == info.deep_view());
        assert(all.skip(out.len() as int)[0] == all[out.len() as int]);
        let a = info.into_anime();
        out.push(a);
        assert(out.deep_view() =~= before.push(a.deep_view()));
        assert(all.skip(out.len() as int) =~= rest.drop_first());
        assert(animes_of(all.take(out.len() as int)) =~= animes_of(all.take(out.len() - 1)).push(
            anime_of(all[out.len() - 1]),
        ));
    }
    assert(all.take(out.len() as int) =~= all);
    Ok(out)
}

/// The show of a detail page.
pub fn parse_detail(content: &str) -> (r: Result<Anime, YourAnimesParseError>)
    ensures
        r matches Ok(a) ==> detail_page(content@) == Ok::<AnimeView, YourAnimesParseErrorKind>(a.deep_view()),
        r matches Err(e) ==> detail_page(content@) == Err::<AnimeView, YourAnimesParseErrorKind>(e.kind()),
{
    match read_page::<AnimeInformation>(content, "/1/3/anime") {
        Ok(info) => Ok(info.into_anime()),
        Err(e) => Err(YourAnimesParseError::NextJs(e)),
    }
}

/// The IDs of a search response's hits, prefixed with the source's name.
/// A search hit does not carry a whole show: each ID is to be looked up.
pub fn parse_search(content: &str) -> (r: Result<Vec<String>, YourAnimesParseError>)
    ensures
        r matches Ok(ids) ==> search_response(content@) == Ok::<Seq<Seq<char>>, YourAnimesParseErrorKind>(ids.deep_view()),
        r matches Err(e) ==> search_response(content@) == Err::<Seq<Seq<char>>, YourAnimesParseErrorKind>(e.kind()),
{
    let result = match SearchResult::from_json(content) {
        Some(r) => r,
        None => {
            let source = match json_normalize(content) {
                Err(e) => e,
                Ok(_) => json_custom_error("the search response does not have the expected shape"),
            };
            return Err(YourAnimesParseError::Json { context: "YourAnimes search response", source });
        },
    };
    let ghost hits = result.deep_view();
    let mut out: Vec<String> = Vec::new();
    let mut i: usize = 0;
    while i < result.result.len()
        invariant
            hits == result.deep_view(),
            0 <= i <= hits.len(),
            out.deep_view() == hits.take(i as int).map_values(|id: Seq<char>| prefixed_id(id)),
        decreases hits.len() - i,
    {
        let ghost before = out.deep_view();
        let mut id = ID_PREFIX.to_owned();
        id.append(":");
        id.append(result.result[i].id.as_str());
        out.push(id);
        assert(out.deep_view() =~= before.push(prefixed_id(hits[i as int])));
        assert(hits.take(i + 1).map_values(|id: Seq<char>| prefixed_id(id)) =~= hits.take(i as int).map_values(
            |id: Seq<char>| prefixed_id(id),
        ).push(prefixed_id(hits[i as int])));
        i += 1;
    }
    assert(hits.take(i as int) =~= hits);
    Ok(out)
}

} // verus!
