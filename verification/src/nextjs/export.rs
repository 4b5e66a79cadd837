//! Hydration data as one JSON document, for callers in other languages.
use vstd::prelude::*;
use crate::json::{json_quote, json_string_literal};
use crate::nextjs::document::{NextJsData, NextJsDataView, parse_html};
use crate::nextjs::error::is_message_of;
use crate::nextjs::records::{FlightRecord, RecordView};
use crate::text::{decimal_digits, u64_to_decimal};

verus! {

/// Why `deserialize_nextjs` failed.
#[derive(Debug, PartialEq, Eq)]
pub enum NextJsError {
    InvalidData { message: String },
}

/// A record as a JSON object with the members `id`, `tag` and `value`.
pub open spec fn record_json(r: RecordView) -> Seq<char> {
    "{\"id\":"@ + match r.id {
        Some(n) => decimal_digits(n as nat),
        None => "null"@,
    } + ",\"tag\":"@ + match r.tag {
        Some(t) => json_string_literal(t),
        None => "null"@,
    } + ",\"value\":"@ + r.value + "}"@
}

/// The records as the elements of a JSON array, separated by commas.
pub open spec fn records_json(rs: Seq<RecordView>) -> Seq<char>
    decreases rs.len(),
{
    if rs.len() == 0 {
        Seq::empty()
    } else if rs.len() == 1 {
        record_json(rs[0])
    } else {
        records_json(rs.drop_last()) + ","@ + record_json(rs.last())
    }
}

/// The document `{"flight":[...],"nextData":...}` in compact form, members
/// sorted by key.
pub open spec fn export_json(d: NextJsDataView) -> Seq<char> {
    "{\"flight\":["@ + records_json(d.flight) + "],\"nextData\":"@ + match d.next_data {
        Some(v) => v,
        None => "null"@,
    } + "}"@
}

fn record_to_json(r: &FlightRecord) -> (s: String)
    ensures
        s@ == record_json(r@),
{
    let mut s = "{\"id\":".to_owned();
    match r.id {
        Some(n) => s.append(u64_to_decimal(n).as_str()),
        None => s.append("null"),
    }
    s.append(",\"tag\":");
    match &r.tag {
        Some(t) => s.append(json_quote(t.as_str()).as_str()),
        None => s.append("null"),
    }
    s.append(",\"value\":");
    s.append(r.value.as_str());
    s.append("}");
    s
}

impl NextJsData {
    /// The data as one JSON document: `{"flight":[...],"nextData":...}`,
    /// each record an object with `id` (number or null), `tag` (string or
    /// null) and `value`.
    pub fn to_json(&self) -> (s: String)
        ensures
            s@ == export_json(self@),
    {
        let ghost rs = self.flight@.map_values(|r: FlightRecord| r@);
        let mut s = "{\"flight\":[".to_owned();
        let ghost head = s@;
        let mut body = String::new();
        let mut i: usize = 0;
        while i < self.flight.len()
            invariant
                rs == self.flight@.map_values(|r: FlightRecord| r@),
                0 <= i <= self.flight@.len(),
                body@ == records_json(rs.take(i as int)),
            decreases self.flight@.len() - i,
        {
            assert(rs.take(i + 1).drop_last() =~= rs.take(i as int));
            if i > 0 {
                body.append(",");
            } else {
                assert(rs.take(1) =~= seq![rs[0]]);
            }
            body.append(record_to_json(&self.flight[i]).as_str());
            i += 1;
        }
        assert(rs.take(i as int) =~= rs);
        s.append(body.as_str());
        s.append("],\"nextData\":");
        match &self.next_data {
            Some(v) => s.append(v.as_str()),
            None => s.append("null"),
        }
        s.append("}");
        s
    }
}

/// Reads the hydration data of an HTML page into one JSON document
/// `{"flight":[...],"nextData":...}` that any JSON library can decode.
pub fn deserialize_nextjs(content: String) -> (r: Result<String, NextJsError>)
    ensures
        r matches Ok(out) ==> parse_html(content@) matches Ok(d) && out@ == export_json(d),
        r matches Err(NextJsError::InvalidData { message }) ==> parse_html(content@) matches Err(k)
            && is_message_of(k, message@),
{
    match NextJsData::parse(content.as_str()) {
        Ok(data) => Ok(data.to_json()),
        Err(e) => Err(NextJsError::InvalidData { message: e.message() }),
    }
}

} // verus!
