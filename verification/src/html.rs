//! HTML tokens as html5tokenizer's naive parser produces them.
use vstd::prelude::*;
use html5tokenizer::{NaiveParser, Token};

verus! {

/// A token of an HTML document.
#[derive(Debug)]
pub enum HtmlToken {
    /// A character of text or of script data.
    Char(char),
    /// A start tag, with its lowercased name and its attributes sorted by name.
    StartTag { name: String, attributes: Vec<(String, String)> },
    /// An end tag, with its lowercased name.
    EndTag { name: String },
    EndOfFile,
    /// A comment or a doctype.
    Other,
}

/// The mathematical view of an [`HtmlToken`].
pub enum HtmlTokenView {
    Char(char),
    StartTag { name: Seq<char>, attributes: Seq<(Seq<char>, Seq<char>)> },
    EndTag { name: Seq<char> },
    EndOfFile,
    Other,
}

impl View for HtmlToken {
    type V = HtmlTokenView;

    open spec fn view(&self) -> HtmlTokenView {
        match self {
            HtmlToken::Char(c) => HtmlTokenView::Char(*c),
            HtmlToken::StartTag { name, attributes } => HtmlTokenView::StartTag {
                name: name@,
                attributes: attributes@.map_values(|a: (String, String)| (a.0@, a.1@)),
            },
            HtmlToken::EndTag { name } => HtmlTokenView::EndTag { name: name@ },
            HtmlToken::EndOfFile => HtmlTokenView::EndOfFile,
            HtmlToken::Other => HtmlTokenView::Other,
        }
    }
}

/// The tokens that html5tokenizer's `NaiveParser` yields for `html`.
pub uninterp spec fn html_token_stream(html: Seq<char>) -> Seq<HtmlTokenView>;

/// `NaiveParser::new(html)`, every token converted to an [`HtmlToken`]. The
/// result is the name `html_token_stream`.
#[verifier::external_body]
pub(crate) fn html_tokens(html: &str) -> (r: Vec<HtmlToken>)
    ensures
        r@.map_values(|t: HtmlToken| t@) == html_token_stream(html@),
{
    NaiveParser::new(html).flatten().map(|token| match token {
        Token::Char(c) => HtmlToken::Char(c),
        Token::StartTag(tag) => HtmlToken::StartTag {
            attributes: tag.attributes.into_iter().map(|a| (a.name, a.value)).collect(),
            name: tag.name,
        },
        Token::EndTag(tag) => HtmlToken::EndTag { name: tag.name },
        Token::EndOfFile => HtmlToken::EndOfFile,
        Token::Comment(_) | Token::Doctype(_) => HtmlToken::Other,
    }).collect()
}

} // verus!
