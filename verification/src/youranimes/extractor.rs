//! The earlier reader of YourAnimes pages: it takes the first Flight push
//! whose text holds a marker, and reads a value by a path from the JSON
//! that the push embeds after its record ID.
use vstd::prelude::*;
use crate::json::{
    JsonShape, JsonShapeView, json_compact, json_custom_error, json_first_value, json_normalize, json_shape,
    json_shape_of, json_stream_first, member_of, find_member,
};
use crate::json_decode::FromJson;
use crate::text::{chars_at, chars_to_string, contains_text, find_text, occurs_at, str_chars};
use crate::youranimes::parser::{YourAnimesParseError, YourAnimesParseErrorKind};
use crate::youranimes::wire::index_or_end;

verus! {

/// How a Flight push starts.
pub const NEXTJS_SCRIPT_HANDLER: &'static str = "self.__next_f.push(";

/// How a Flight push ends.
pub const NEXTJS_SCRIPT_SUFFIX: &'static str = ")";

/// The text of each `script` element of an HTML document, in document order,
/// as scraper parses the document.
pub uninterp spec fn html_script_texts(body: Seq<char>) -> Seq<Seq<char>>;

/// scraper: `Html::parse_document`, then the `inner_html` of each element
/// that the selector `script` selects. The result is the name `html_script_texts`.
#[verifier::external_body]
fn script_texts(body: &str) -> (r: Vec<String>)
    ensures
        r.deep_view() == html_script_texts(body@),
{
    let html = scraper::Html::parse_document(body);
    let selector = scraper::Selector::parse("script").unwrap();
    html.select(&selector).map(|element| element.inner_html()).collect()
}

/// One step of a path into a JSON value.
#[derive(Debug, Clone, Copy)]
pub enum JsonPath<'a> {
    /// An element of an array.
    Index(usize),
    /// A member of an object.
    Key(&'a str),
}

/// The mathematical view of a [`JsonPath`] step.
pub enum JsonPathView {
    Index(nat),
    Key(Seq<char>),
}

impl<'a> View for JsonPath<'a> {
    type V = JsonPathView;

    open spec fn view(&self) -> JsonPathView {
        match self {
            JsonPath::Index(i) => JsonPathView::Index(*i as nat),
            JsonPath::Key(k) => JsonPathView::Key(k@),
        }
    }
}

/// The views of the steps of a path.
pub open spec fn path_views<'a>(p: Seq<JsonPath<'a>>) -> Seq<JsonPathView> {
    p.map_values(|s: JsonPath<'a>| s@)
}

/// The value that one step selects in the JSON text `text`: an element of
/// an array by index, a member of an object by key.
pub open spec fn path_step(text: Seq<char>, step: JsonPathView) -> Option<Seq<char>> {
    match json_shape_of(text) {
        Some(JsonShapeView::Array(items)) => match step {
            JsonPathView::Index(i) => if i < items.len() {
                Some(items[i as int])
            } else {
                None
            },
            JsonPathView::Key(_) => None,
        },
        Some(JsonShapeView::Object(members)) => match step {
            JsonPathView::Key(k) => member_of(members, k),
            JsonPathView::Index(_) => None,
        },
        _ => None,
    }
}

/// The value that a path selects in the JSON text `text`.
pub open spec fn path_target(text: Seq<char>, path: Seq<JsonPathView>) -> Option<Seq<char>>
    decreases path.len(),
{
    if path.len() == 0 {
        Some(text)
    } else {
        match path_step(text, path[0]) {
            Some(t) => path_target(t, path.drop_first()),
            None => None,
        }
    }
}

/// The argument of a Flight push: the script without the handler before it
/// and the `)` after it, where it has both.
pub open spec fn frame_content(script: Seq<char>) -> Option<Seq<char>> {
    let h = NEXTJS_SCRIPT_HANDLER@;
    let t = NEXTJS_SCRIPT_SUFFIX@;
    if script.len() >= h.len() + t.len() && occurs_at(script, 0, h) && occurs_at(script, script.len() - t.len(), t) {
        Some(script.subrange(h.len() as int, script.len() - t.len()))
    } else {
        None
    }
}

/// The argument of the first Flight push that holds `marker`.
pub open spec fn matching_frame(scripts: Seq<Seq<char>>, marker: Seq<char>) -> Option<Seq<char>>
    decreases scripts.len(),
{
    if scripts.len() == 0 {
        None
    } else {
        match frame_content(scripts[0]) {
            Some(c) => if contains_text(c, marker) {
                Some(c)
            } else {
                matching_frame(scripts.drop_first(), marker)
            },
            None => matching_frame(scripts.drop_first(), marker),
        }
    }
}

/// The matching push's argument as JSON.
pub open spec fn frame_spec(scripts: Seq<Seq<char>>, marker: Seq<char>) -> Result<Seq<char>, YourAnimesParseErrorKind> {
    match matching_frame(scripts, marker) {
        None => Err(YourAnimesParseErrorKind::InvalidResponse("matching Next.js data frame was not found"@)),
        Some(c) => match json_compact(c) {
            Some(t) => Ok(t),
            None => Err(YourAnimesParseErrorKind::Json("Next.js data frame"@)),
        },
    }
}

/// The second element of a push's argument, where it is a string.
pub open spec fn frame_payload(frame: Seq<char>) -> Option<Seq<char>> {
    match json_shape_of(frame) {
        Some(JsonShapeView::Array(items)) => if items.len() > 1 {
            match json_shape_of(items[1]) {
                Some(JsonShapeView::Str(s)) => Some(s),
                _ => None,
            }
        } else {
            None
        },
        _ => None,
    }
}

/// The first JSON value after the first `:` of a payload.
pub open spec fn embedded_spec(payload: Seq<char>) -> Result<Seq<char>, YourAnimesParseErrorKind> {
    let i = index_or_end(payload, 0, ':');
    if i >= payload.len() {
        Err(YourAnimesParseErrorKind::InvalidResponse("Next.js frame payload has no separator"@))
    } else {
        match json_stream_first(payload.skip(i + 1)) {
            None => Err(YourAnimesParseErrorKind::Json("Next.js embedded JSON"@)),
            Some(None) => Err(YourAnimesParseErrorKind::InvalidResponse("Next.js frame contains no embedded JSON"@)),
            Some(Some((t, _))) => Ok(t),
        }
    }
}

/// What [`NextJsExtractor::extract_from_scripts`] gives.
pub open spec fn extract_spec<T: FromJson>(
    scripts: Seq<Seq<char>>,
    marker: Seq<char>,
    path: Seq<JsonPathView>,
) -> Result<<T as DeepView>::V, YourAnimesParseErrorKind> {
    match frame_spec(scripts, marker) {
        Err(e) => Err(e),
        Ok(frame) => match frame_payload(frame) {
            None => Err(YourAnimesParseErrorKind::InvalidResponse("Next.js frame has no string payload"@)),
            Some(payload) => match embedded_spec(payload) {
                Err(e) => Err(e),
                Ok(embedded) => match path_target(embedded, path) {
                    None => Err(YourAnimesParseErrorKind::InvalidResponse("Next.js target data was not found"@)),
                    Some(target) => match T::json_model(target) {
                        Some(v) => Ok(v),
                        None => Err(YourAnimesParseErrorKind::Json("Next.js target data"@)),
                    },
                },
            },
        },
    }
}

/// Reads values out of Flight pushes without the Flight record parser.
pub struct NextJsExtractor;

impl NextJsExtractor {
    /// The value at `path` in the JSON embedded in the first Flight push of
    /// the page `body` that holds `matches`, read as `T`.
    pub fn extract<T: FromJson>(body: &str, matches: &str, path: &[JsonPath]) -> (r: Result<T, YourAnimesParseError>)
        ensures
            r matches Ok(v) ==> extract_spec::<T>(html_script_texts(body@), matches@, path_views(path@))
                == Ok::<<T as DeepView>::V, YourAnimesParseErrorKind>(v.deep_view()),
            r matches Err(e) ==> extract_spec::<T>(html_script_texts(body@), matches@, path_views(path@))
                == Err::<<T as DeepView>::V, YourAnimesParseErrorKind>(e.kind()),
    {
        let scripts = script_texts(body);
        Self::extract_from_scripts(&scripts, matches, path)
    }

    /// The value at `path` in the JSON embedded in the first of the script
    /// texts `scripts` that is a Flight push holding `matches`, read as `T`.
    pub fn extract_from_scripts<T: FromJson>(scripts: &Vec<String>, matches: &str, path: &[JsonPath]) -> (r: Result<T, YourAnimesParseError>)
        ensures
            r matches Ok(v) ==> extract_spec::<T>(scripts.deep_view(), matches@, path_views(path@))
                == Ok::<<T as DeepView>::V, YourAnimesParseErrorKind>(v.deep_view()),
            r matches Err(e) ==> extract_spec::<T>(scripts.deep_view(), matches@, path_views(path@))
                == Err::<<T as DeepView>::V, YourAnimesParseErrorKind>(e.kind()),
    {
        let frame = Self::find_frame(scripts, matches)?;
        let payload = match json_shape(frame.as_str()) {
            Some(JsonShape::Array(items)) => if items.len() > 1 {
                match json_shape(items[1].as_str()) {
                    Some(JsonShape::Str(s)) => Some(s),
                    _ => None,
                }
            } else {
                None
            },
            _ => None,
        };
        let payload = match payload {
            Some(p) => p,
            None => {
                return Err(YourAnimesParseError::InvalidResponse { context: "Next.js frame has no string payload" });
            },
        };
        let embedded = Self::embedded(payload.as_str())?;
        let target = match Self::get_path(embedded.as_str(), path) {
            Some(t) => t,
            None => {
                return Err(YourAnimesParseError::InvalidResponse { context: "Next.js target data was not found" });
            },
        };
        match T::from_json(target.as_str()) {
            Some(v) => Ok(v),
            None => Err(YourAnimesParseError::Json {
                context: "Next.js target data",
                source: T::json_error(target.as_str()),
            }),
        }
    }

    /// The first JSON value after the first `:` of a push's payload.
    fn embedded(payload: &str) -> (r: Result<String, YourAnimesParseError>)
        ensures
            r matches Ok(t) ==> embedded_spec(payload@) == Ok::<Seq<char>, YourAnimesParseErrorKind>(t@),
            r matches Err(e) ==> embedded_spec(payload@) == Err::<Seq<char>, YourAnimesParseErrorKind>(e.kind()),
    {
        let chars = str_chars(payload);
        let mut i: usize = 0;
        while i < chars.len() && chars[i] != ':'
            invariant
                chars@ == payload@,
                0 <= i <= chars@.len(),
                index_or_end(chars@, 0, ':') == index_or_end(chars@, i as int, ':'),
            decreases chars@.len() - i,
        {
            i += 1;
        }
        if i >= chars.len() {
            return Err(YourAnimesParseError::InvalidResponse { context: "Next.js frame payload has no separator" });
        }
        match json_first_value(&chars, i + 1) {
            Err(source) => Err(YourAnimesParseError::Json { context: "Next.js embedded JSON", source }),
            Ok(None) => Err(YourAnimesParseError::InvalidResponse { context: "Next.js frame contains no embedded JSON" }),
            Ok(Some((text, _))) => Ok(text),
        }
    }

    /// The argument of the first Flight push among `scripts` that holds `matches`, as JSON.
    fn find_frame(scripts: &Vec<String>, matches: &str) -> (r: Result<String, YourAnimesParseError>)
        ensures
            r matches Ok(t) ==> frame_spec(scripts.deep_view(), matches@) == Ok::<Seq<char>, YourAnimesParseErrorKind>(t@),
            r matches Err(e) ==> frame_spec(scripts.deep_view(), matches@) == Err::<Seq<char>, YourAnimesParseErrorKind>(e.kind()),
    {
        let ghost all = scripts.deep_view();
        let handler = str_chars(NEXTJS_SCRIPT_HANDLER);
        let suffix = str_chars(NEXTJS_SCRIPT_SUFFIX);
        let marker = str_chars(matches);
        let mut i: usize = 0;
        assert(all.skip(0) =~= all);
        while i < scripts.len()
            invariant
                all == scripts.deep_view(),
                handler@ == NEXTJS_SCRIPT_HANDLER@,
                suffix@ == NEXTJS_SCRIPT_SUFFIX@,
                marker@ == matches@,
                0 <= i <= all.len(),
                matching_frame(all, matches@) == matching_frame(all.skip(i as int), matches@),
            decreases all.len() - i,
        {
            assert(all.skip(i as int).drop_first() =~= all.skip(i + 1));
            assert(all.skip(i as int)[0] == all[i as int]);
            let script = str_chars(scripts[i].as_str());
            let n = script.len();
            if suffix.len() <= n && handler.len() <= n - suffix.len() && chars_at(&script, 0, &handler) && chars_at(
                &script,
                n - suffix.len(),
                &suffix,
            ) {
                let content = chars_to_string(&script.as_slice()[handler.len()..n - suffix.len()]);
                let content_chars = str_chars(content.as_str());
                assert(content@ =~= script@.subrange(handler@.len() as int, n - suffix@.len()));
                if find_text(&content_chars, &marker) {
                    return match json_normalize(content.as_str()) {
                        Ok(t) => Ok(t),
                        Err(source) => Err(YourAnimesParseError::Json { context: "Next.js data frame", source }),
                    };
                }
            }
            i += 1;
        }
        assert(all.skip(i as int) =~= Seq::<Seq<char>>::empty());
        Err(YourAnimesParseError::InvalidResponse { context: "matching Next.js data frame was not found" })
    }

    /// The value that `path` selects in the JSON text `value`.
    fn get_path(value: &str, path: &[JsonPath]) -> (r: Option<String>)
        ensures
            match r {
                Some(t) => path_target(value@, path_views(path@)) == Some(t@),
                None => path_target(value@, path_views(path@)) is None,
            },
    {
        let ghost steps = path_views(path@);
        let mut current = value.to_owned();
        let mut i: usize = 0;
        assert(steps.skip(0) =~= steps);
        while i < path.len()
            invariant
                steps == path_views(path@),
                0 <= i <= steps.len(),
                path_target(value@, steps) == path_target(current@, steps.skip(i as int)),
            decreases steps.len() - i,
        {
            assert(steps.skip(i as int)[0] == path@[i as int]@);
            assert(steps.skip(i as int).drop_first() =~= steps.skip(i + 1));
            let next = match (json_shape(current.as_str()), path[i]) {
                (Some(JsonShape::Array(items)), JsonPath::Index(k)) => if k < items.len() {
                    Some(items[k].clone())
                } else {
                    None
                },
                (Some(JsonShape::Object(members)), JsonPath::Key(key)) => find_member(&members, key),
                _ => None,
            };
            match next {
                Some(t) => {
                    current = t;
                },
                None => {
                    return None;
                },
            }
            i += 1;
        }
        assert(steps.skip(i as int) =~= Seq::<JsonPathView>::empty());
        Some(current)
    }
}

} // verus!
