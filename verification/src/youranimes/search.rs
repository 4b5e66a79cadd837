//! The JSON body of a YourAnimes search response.
use vstd::prelude::*;
use crate::json_decode::{FromJson, object_of, object_members, required, required_field};

verus! {

/// One hit of a search: the show's ID at the source.
#[derive(Debug, PartialEq, Eq)]
pub struct SearchItem {
    pub id: String,
}

impl DeepView for SearchItem {
    type V = Seq<char>;

    open spec fn deep_view(&self) -> Seq<char> {
        self.id@
    }
}

impl FromJson for SearchItem {
    open spec fn json_model(text: Seq<char>) -> Option<Seq<char>> {
        match object_of(text) {
            Some(m) => required_field::<String>(m, "_id"@),
            None => None,
        }
    }

    fn from_json(text: &str) -> (r: Option<SearchItem>) {
        let m = object_members(text)?;
        let id = required::<String>(&m, "_id")?;
        Some(SearchItem { id })
    }
}

/// A search response: its hits in order. Other members are not read.
#[derive(Debug, PartialEq, Eq)]
pub struct SearchResult {
    pub result: Vec<SearchItem>,
}

impl DeepView for SearchResult {
    type V = Seq<Seq<char>>;

    open spec fn deep_view(&self) -> Seq<Seq<char>> {
        self.result.deep_view()
    }
}

impl FromJson for SearchResult {
    open spec fn json_model(text: Seq<char>) -> Option<Seq<Seq<char>>> {
        match object_of(text) {
            Some(m) => required_field::<Vec<SearchItem>>(m, "result"@),
            None => None,
        }
    }

    fn from_json(text: &str) -> (r: Option<SearchResult>) {
        let m = object_members(text)?;
        let result = required::<Vec<SearchItem>>(&m, "result")?;
        Some(SearchResult { result })
    }
}

/// The paging of a search response.
#[derive(Debug, PartialEq, Eq)]
pub struct Metadata {
    pub order_option: i64,
    pub page: i64,
    pub size: i64,
    pub tk: String,
    pub total: i64,
}

impl DeepView for Metadata {
    type V = (i64, i64, i64, Seq<char>, i64);

    open spec fn deep_view(&self) -> Self::V {
        (self.order_option, self.page, self.size, self.tk@, self.total)
    }
}

impl FromJson for Metadata {
    open spec fn json_model(text: Seq<char>) -> Option<(i64, i64, i64, Seq<char>, i64)> {
        match object_of(text) {
            Some(m) => match (
                required_field::<i64>(m, "orderOption"@),
                required_field::<i64>(m, "page"@),
                required_field::<i64>(m, "size"@),
                required_field::<String>(m, "tk"@),
                required_field::<i64>(m, "total"@),
            ) {
                (Some(o), Some(p), Some(s), Some(t), Some(n)) => Some((o, p, s, t, n)),
                _ => None,
            },
            None => None,
        }
    }

    fn from_json(text: &str) -> (r: Option<Metadata>) {
        let m = object_members(text)?;
        let order_option = required::<i64>(&m, "orderOption")?;
        let page = required::<i64>(&m, "page")?;
        let size = required::<i64>(&m, "size")?;
        let tk = required::<String>(&m, "tk")?;
        let total = required::<i64>(&m, "total")?;
        Some(Metadata { order_option, page, size, tk, total })
    }
}

/// A studio as a search hit names it.
#[derive(Debug, PartialEq, Eq)]
pub struct Studio {
    pub id: String,
    pub name: String,
}

impl DeepView for Studio {
    type V = (Seq<char>, Seq<char>);

    open spec fn deep_view(&self) -> Self::V {
        (self.id@, self.name@)
    }
}

impl FromJson for Studio {
    open spec fn json_model(text: Seq<char>) -> Option<(Seq<char>, Seq<char>)> {
        match object_of(text) {
            Some(m) => match (required_field::<String>(m, "_id"@), required_field::<String>(m, "name"@)) {
                (Some(id), Some(name)) => Some((id, name)),
                _ => None,
            },
            None => None,
        }
    }

    fn from_json(text: &str) -> (r: Option<Studio>) {
        let m = object_members(text)?;
        let id = required::<String>(&m, "_id")?;
        let name = required::<String>(&m, "name")?;
        Some(Studio { id, name })
    }
}

} // verus!
