//! What every anime source offers: the errors of its answers, and the
//! parser of its responses. YourAnimes is the source the library has.
use vstd::prelude::*;
use crate::anime::{Anime, AnimeView};
use crate::anime_time::{ZoneConversionError, zone_error_text};
use crate::json::json_error_message;
use crate::nextjs::error::kind_context;
use crate::youranimes::convert::ID_PREFIX;
use crate::youranimes::fetch::YourAnimesError;
use crate::youranimes::parser::{
    YourAnimesParseError, YourAnimesParseErrorKind, detail_page, list_page, parse_detail, parse_list,
    parse_search, search_response,
};

verus! {

/// A response of a source that could not be read.
#[derive(Debug)]
pub enum ParseError {
    /// The response lacks what the stage needs.
    InvalidResponse { context: &'static str },
    /// The response could not be decoded; `message` is what the cause says.
    Decode { context: &'static str, message: String },
}

/// What a [`ParseError`] says of the stage.
pub enum ParseErrorKind {
    InvalidResponse(Seq<char>),
    Decode(Seq<char>),
}

/// The message of a parse error of kind `k`.
pub open spec fn parse_error_text(k: ParseErrorKind) -> Seq<char> {
    match k {
        ParseErrorKind::InvalidResponse(context) => "invalid source response: "@ + context,
        ParseErrorKind::Decode(context) => "failed to decode source response: "@ + context,
    }
}

impl ParseError {
    pub open spec fn kind(&self) -> ParseErrorKind {
        match self {
            ParseError::InvalidResponse { context } => ParseErrorKind::InvalidResponse(context@),
            ParseError::Decode { context, .. } => ParseErrorKind::Decode(context@),
        }
    }

    /// The message of the error.
    pub fn message(&self) -> (m: String)
        ensures
            m@ == parse_error_text(self.kind()),
            self matches ParseError::InvalidResponse { context } ==> m@ == "invalid source response: "@ + context@,
            self matches ParseError::Decode { context, .. } ==> m@ == "failed to decode source response: "@ + context@,
    {
        match self {
            ParseError::InvalidResponse { context } => {
                let mut m = "invalid source response: ".to_owned();
                m.append(context);
                m
            },
            ParseError::Decode { context, .. } => {
                let mut m = "failed to decode source response: ".to_owned();
                m.append(context);
                m
            },
        }
    }
}

/// The source-level kind of a YourAnimes parse error: a JSON or page error
/// is a decode error of its stage, a missing piece an invalid response.
pub open spec fn source_kind(k: YourAnimesParseErrorKind) -> ParseErrorKind {
    match k {
        YourAnimesParseErrorKind::Json(context) => ParseErrorKind::Decode(context),
        YourAnimesParseErrorKind::InvalidResponse(context) => ParseErrorKind::InvalidResponse(context),
        YourAnimesParseErrorKind::NextJs(e) => ParseErrorKind::Decode(kind_context(e)),
    }
}

/// A YourAnimes parse error as a source's parse error, with the message of its cause.
pub fn from_youranimes_parse_error(e: YourAnimesParseError) -> (r: ParseError)
    ensures
        r.kind() == source_kind(e.kind()),
        e matches YourAnimesParseError::NextJs(n) ==> r matches ParseError::Decode { message, .. }
            && crate::nextjs::error::is_message_of(n.kind(), message@),
{
    match e {
        YourAnimesParseError::Json { context, source } => ParseError::Decode {
            context,
            message: json_error_message(&source),
        },
        YourAnimesParseError::InvalidResponse { context } => ParseError::InvalidResponse { context },
        YourAnimesParseError::NextJs(source) => ParseError::Decode {
            context: source.context(),
            message: source.message(),
        },
    }
}

/// What a source could not do.
#[derive(Debug)]
pub enum SourceError {
    /// The source could not be reached or did not answer well.
    Unavailable,
    /// The answer could not be read.
    Parse(ParseError),
    /// The reader's time zone is not known.
    TimezoneUnavailable { source: ZoneConversionError },
    /// A show's slot could not be moved to the reader's zone.
    AnimeConversion { anime_id: String, source: ZoneConversionError },
}

impl SourceError {
    /// The message of the error.
    pub fn message(&self) -> (m: String)
        ensures
            self is Unavailable ==> m@ == "the source is unavailable"@,
            self matches SourceError::Parse(e) ==> m@ == parse_error_text(e.kind()),
            self matches SourceError::TimezoneUnavailable { source } ==> m@ == "system timezone is unavailable: "@
                + zone_error_text(*source),
            self matches SourceError::AnimeConversion { anime_id, source } ==> m@ == "failed to convert anime "@
                + anime_id@ + ": "@ + zone_error_text(*source),
    {
        match self {
            SourceError::Unavailable => "the source is unavailable".to_owned(),
            SourceError::Parse(e) => e.message(),
            SourceError::TimezoneUnavailable { source } => {
                let mut m = "system timezone is unavailable: ".to_owned();
                m.append(source.message());
                m
            },
            SourceError::AnimeConversion { anime_id, source } => {
                let mut m = "failed to convert anime ".to_owned();
                m.append(anime_id.as_str());
                m.append(": ");
                m.append(source.message());
                m
            },
        }
    }
}

/// A YourAnimes fetch error as a source error: a failed request or status
/// makes the source unavailable; the other errors keep what they say.
pub fn from_youranimes_error(e: YourAnimesError) -> (r: SourceError)
    ensures
        (e is Request || e is ResponseBody || e is UnexpectedStatus) <==> r is Unavailable,
        e is Parse <==> r is Parse,
        e matches YourAnimesError::Parse(p) ==> r matches SourceError::Parse(q) && q.kind() == source_kind(p.kind()),
        e matches YourAnimesError::Timezone(z) ==> r == (SourceError::TimezoneUnavailable { source: z }),
        e matches YourAnimesError::AnimeConversion { anime_id, source } ==> r matches SourceError::AnimeConversion {
            anime_id: id,
            source: s,
        } && id@ == anime_id@ && s == source,
{
    match e {
        YourAnimesError::Request { .. } => SourceError::Unavailable,
        YourAnimesError::ResponseBody { .. } => SourceError::Unavailable,
        YourAnimesError::UnexpectedStatus { .. } => SourceError::Unavailable,
        YourAnimesError::Parse(p) => SourceError::Parse(from_youranimes_parse_error(p)),
        YourAnimesError::Timezone(z) => SourceError::TimezoneUnavailable { source: z },
        YourAnimesError::AnimeConversion { anime_id, source } => SourceError::AnimeConversion { anime_id, source },
    }
}

/// The reader of a source's responses; the caller fetches them.
pub trait AnimeParser {
    /// The name of the source, which prefixes the IDs of its shows.
    fn source_id(&self) -> &'static str;

    /// The shows of a season page.
    fn parse_list(&self, content: &str) -> Result<Vec<Anime>, ParseError>;

    /// The show of a detail page.
    fn parse_detail(&self, content: &str) -> Result<Anime, ParseError>;

    /// The IDs of the hits of a search response.
    fn parse_search(&self, content: &str) -> Result<Vec<String>, ParseError>;
}

/// The parser of YourAnimes responses.
#[derive(Debug, Clone, Copy)]
pub struct YourAnimeParser;

impl YourAnimeParser {
    pub fn new() -> (p: YourAnimeParser) {
        YourAnimeParser
    }
}

impl AnimeParser for YourAnimeParser {
    fn source_id(&self) -> (s: &'static str)
        ensures
            s@ == ID_PREFIX@,
    {
        ID_PREFIX
    }

    fn parse_list(&self, content: &str) -> (r: Result<Vec<Anime>, ParseError>)
        ensures
            r matches Ok(v) ==> list_page(content@) == Ok::<Seq<AnimeView>, YourAnimesParseErrorKind>(v.deep_view()),
            r matches Err(e) ==> list_page(content@) matches Err(k) && e.kind() == source_kind(k),
    {
        match parse_list(content) {
            Ok(v) => Ok(v),
            Err(e) => Err(from_youranimes_parse_error(e)),
        }
    }

    fn parse_detail(&self, content: &str) -> (r: Result<Anime, ParseError>)
        ensures
            r matches Ok(a) ==> detail_page(content@) == Ok::<AnimeView, YourAnimesParseErrorKind>(a.deep_view()),
            r matches Err(e) ==> detail_page(content@) matches Err(k) && e.kind() == source_kind(k),
    {
        match parse_detail(content) {
            Ok(a) => Ok(a),
            Err(e) => Err(from_youranimes_parse_error(e)),
        }
    }

    fn parse_search(&self, content: &str) -> (r: Result<Vec<String>, ParseError>)
        ensures
            r matches Ok(ids) ==> search_response(content@) == Ok::<Seq<Seq<char>>, YourAnimesParseErrorKind>(
                ids.deep_view(),
            ),
            r matches Err(e) ==> search_response(content@) matches Err(k) && e.kind() == source_kind(k),
    {
        match parse_search(content) {
            Ok(ids) => Ok(ids),
            Err(e) => Err(from_youranimes_parse_error(e)),
        }
    }
}

} // verus!
