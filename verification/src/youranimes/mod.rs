//! The youranimes.tw source: its page and API formats, and the requests it
//! needs.
pub mod wire;
pub mod schema;
pub mod information;
pub mod convert;
pub mod search;
pub mod parser;
pub mod fetch;
pub mod extractor;
