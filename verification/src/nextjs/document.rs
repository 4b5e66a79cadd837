//! The hydration data of a page: `__NEXT_DATA__` and the Flight records of
//! its inline scripts.
use vstd::prelude::*;
use crate::html::{HtmlToken, HtmlTokenView, html_token_stream, html_tokens};
use crate::json::{json_custom_error, json_compact, json_normalize, json_pointer, json_pointer_target, member_of, find_member, opt_string_view, str_eq};
use crate::nextjs::error::{ParseError, ParseErrorKind};
use crate::nextjs::records::{FlightRecord, RecordView, parse_records, parse_records_spec};
use crate::nextjs::transport::{read_script, read_script_spec};
use crate::text::chars_to_string;
use crate::json_decode::FromJson;

verus! {

/// Hydration data from the Pages Router and/or the App Router.
#[derive(Debug)]
pub struct NextJsData {
    /// The `__NEXT_DATA__` document as compact JSON text.
    pub next_data: Option<String>,
    /// Records in wire order, preserving repeated and absent IDs.
    pub flight: Vec<FlightRecord>,
}

/// The mathematical view of [`NextJsData`].
pub struct NextJsDataView {
    pub next_data: Option<Seq<char>>,
    pub flight: Seq<RecordView>,
}

impl View for NextJsData {
    type V = NextJsDataView;

    open spec fn view(&self) -> NextJsDataView {
        NextJsDataView {
            next_data: opt_string_view(self.next_data),
            flight: self.flight@.map_values(|r: FlightRecord| r@),
        }
    }
}

/// A start tag named `script`.
pub open spec fn is_script_start(t: HtmlTokenView) -> bool {
    t matches HtmlTokenView::StartTag { name, .. } && name == "script"@
}

/// A token that ends script data: `</script>` or the end of the file.
pub open spec fn ends_script(t: HtmlTokenView) -> bool {
    ||| t matches HtmlTokenView::EndTag { name } && name == "script"@
    ||| t is EndOfFile
}

/// The first token at or after `k` that ends script data, else the length.
pub open spec fn script_end(t: Seq<HtmlTokenView>, k: int) -> int
    decreases t.len() - k,
{
    if !(0 <= k < t.len()) {
        t.len() as int
    } else if ends_script(t[k]) {
        k
    } else {
        script_end(t, k + 1)
    }
}

/// The characters of the character tokens in `t[from..to]`.
pub open spec fn script_text(t: Seq<HtmlTokenView>, from: int, to: int) -> Seq<char>
    decreases to - from,
{
    if from >= to {
        Seq::empty()
    } else {
        let rest = script_text(t, from, to - 1);
        match t[to - 1] {
            HtmlTokenView::Char(c) => rest.push(c),
            _ => rest,
        }
    }
}

/// What has been read so far: `__NEXT_DATA__`, the Flight byte stream, and
/// whether any push statement was seen.
pub struct ScanState {
    pub next_data: Option<Seq<char>>,
    pub bytes: Seq<u8>,
    pub has_flight: bool,
}

/// The state after one script element with attributes `attributes` and text `text`.
pub open spec fn read_script_element(
    attributes: Seq<(Seq<char>, Seq<char>)>,
    text: Seq<char>,
    state: ScanState,
) -> Result<ScanState, ParseErrorKind> {
    if member_of(attributes, "id"@) == Some("__NEXT_DATA__"@) {
        match json_compact(text) {
            Some(v) => Ok(ScanState { next_data: Some(v), ..state }),
            None => Err(ParseErrorKind::Json("Next.js __NEXT_DATA__"@)),
        }
    } else if member_of(attributes, "src"@) is None {
        match read_script_spec(text, state.bytes) {
            Ok((bytes, found)) => Ok(ScanState { bytes, has_flight: state.has_flight || found, ..state }),
            Err((e, _)) => Err(e),
        }
    } else {
        Ok(state)
    }
}

/// Reads the script elements among the tokens from `i` on.
pub open spec fn scan_scripts(t: Seq<HtmlTokenView>, i: int, state: ScanState) -> Result<ScanState, ParseErrorKind>
    decreases t.len() + 1 - i,
{
    if !(0 <= i < t.len()) {
        Ok(state)
    } else if is_script_start(t[i]) {
        let end = script_end(t, i + 1);
        proof {
            lemma_script_end(t, i + 1);
        }
        match read_script_element(t[i]->attributes, script_text(t, i + 1, end), state) {
            Ok(next) => scan_scripts(t, end + 1, next),
            Err(e) => Err(e),
        }
    } else {
        scan_scripts(t, i + 1, state)
    }
}

/// The hydration data of a page with tokens `t`, or why there is none.
pub open spec fn parse_tokens(t: Seq<HtmlTokenView>) -> Result<NextJsDataView, ParseErrorKind> {
    match scan_scripts(t, 0, ScanState { next_data: None, bytes: Seq::empty(), has_flight: false }) {
        Err(e) => Err(e),
        Ok(state) => if state.next_data is None && !state.has_flight {
            Err(ParseErrorKind::MissingData)
        } else {
            match parse_records_spec(state.bytes) {
                Ok(records) => Ok(NextJsDataView { next_data: state.next_data, flight: records }),
                Err(e) => Err(e),
            }
        },
    }
}

/// The hydration data of an HTML page.
pub open spec fn parse_html(html: Seq<char>) -> Result<NextJsDataView, ParseErrorKind> {
    parse_tokens(html_token_stream(html))
}

pub proof fn lemma_script_end(t: Seq<HtmlTokenView>, k: int)
    requires
        0 <= k,
    ensures
        k <= script_end(t, k) <= t.len() || (k > t.len() && script_end(t, k) == t.len()),
        script_end(t, k) >= k || k > t.len(),
    decreases t.len() - k,
{
    if 0 <= k < t.len() && !ends_script(t[k]) {
        lemma_script_end(t, k + 1);
    }
}

/// The first model record (one without a tag) in which the pointer selects a value.
pub open spec fn find_in_records(records: Seq<RecordView>, pointer: Seq<char>) -> Option<Seq<char>>
    decreases records.len(),
{
    if records.len() == 0 {
        None
    } else if records[0].tag is None && json_pointer_target(records[0].value, pointer) is Some {
        json_pointer_target(records[0].value, pointer)
    } else {
        find_in_records(records.drop_first(), pointer)
    }
}

/// The model records, those without a tag, in order.
pub open spec fn model_records(records: Seq<RecordView>) -> Seq<RecordView>
    decreases records.len(),
{
    if records.len() == 0 {
        Seq::empty()
    } else if records[0].tag is None {
        seq![records[0]] + model_records(records.drop_first())
    } else {
        model_records(records.drop_first())
    }
}

/// Tagged records never take part in a lookup: it finds in all the records
/// what it finds in the model records alone, and the first model record
/// where the pointer selects a value decides.
pub proof fn lemma_lookup_ignores_tagged_records(records: Seq<RecordView>, pointer: Seq<char>)
    ensures
        find_in_records(records, pointer) == find_in_records(model_records(records), pointer),
    decreases records.len(),
{
    if records.len() > 0 {
        lemma_lookup_ignores_tagged_records(records.drop_first(), pointer);
        if records[0].tag is None {
            let m = seq![records[0]] + model_records(records.drop_first());
            assert(m[0] == records[0]);
            assert(m.drop_first() =~= model_records(records.drop_first()));
        }
    }
}

/// The value that a JSON pointer selects: in the first model record where it
/// selects one, else in `__NEXT_DATA__`.
pub open spec fn find_spec(data: NextJsDataView, pointer: Seq<char>) -> Option<Seq<char>> {
    match find_in_records(data.flight, pointer) {
        Some(v) => Some(v),
        None => match data.next_data {
            Some(d) => json_pointer_target(d, pointer),
            None => None,
        },
    }
}

fn token_is(t: &HtmlToken, script_end: bool) -> (r: bool)
    ensures
        script_end ==> r == ends_script(t@),
        !script_end ==> r == is_script_start(t@),
{
    proof {
        reveal_strlit("script");
    }
    match t {
        HtmlToken::StartTag { name, .. } => !script_end && str_eq(name.as_str(), "script"),
        HtmlToken::EndTag { name } => script_end && str_eq(name.as_str(), "script"),
        HtmlToken::EndOfFile => script_end,
        _ => false,
    }
}

fn attribute_is(attributes: &Vec<(String, String)>, name: &str, value: &str) -> (r: bool)
    ensures
        r == (member_of(attributes@.map_values(|m: (String, String)| (m.0@, m.1@)), name@) == Some(value@)),
{
    match find_member(attributes, name) {
        Some(v) => str_eq(v.as_str(), value),
        None => false,
    }
}

impl NextJsData {
    /// Reads the hydration data of an HTML page without running its scripts.
    pub fn parse(html: &str) -> (r: Result<NextJsData, ParseError>)
        ensures
            r matches Ok(d) ==> parse_html(html@) == Ok::<NextJsDataView, ParseErrorKind>(d@),
            r matches Err(e) ==> parse_html(html@) == Err::<NextJsDataView, ParseErrorKind>(e.kind()),
    {
        let tokens = html_tokens(html);
        let ghost t = tokens@.map_values(|x: HtmlToken| x@);
        let mut next_data: Option<String> = None;
        let mut bytes: Vec<u8> = Vec::new();
        let mut has_flight = false;
        let mut i: usize = 0;
        let ghost init = ScanState { next_data: None, bytes: Seq::empty(), has_flight: false };
        while i < tokens.len()
            invariant
                t == tokens@.map_values(|x: HtmlToken| x@),
                t == html_token_stream(html@),
                init == (ScanState { next_data: None, bytes: Seq::empty(), has_flight: false }),
                0 <= i <= tokens@.len(),
                scan_scripts(t, 0, init) == scan_scripts(
                    t,
                    i as int,
                    ScanState { next_data: opt_string_view(next_data), bytes: bytes@, has_flight },
                ),
            decreases tokens@.len() - i,
        {
            if !token_is(&tokens[i], false) {
                i += 1;
                continue;
            }
            let ghost state = ScanState { next_data: opt_string_view(next_data), bytes: bytes@, has_flight };
            let mut text: Vec<char> = Vec::new();
            let mut k = i + 1;
            proof {
                lemma_script_end(t, i + 1);
            }
            while k < tokens.len() && !token_is(&tokens[k], true)
                invariant
                    t == tokens@.map_values(|x: HtmlToken| x@),
                    i < k <= tokens@.len(),
                    script_end(t, i + 1) == script_end(t, k as int),
                    text@ == script_text(t, i + 1, k as int),
                decreases tokens@.len() - k,
            {
                if let HtmlToken::Char(c) = &tokens[k] {
                    text.push(*c);
                }
                k += 1;
            }
            let attributes = match &tokens[i] {
                HtmlToken::StartTag { attributes, .. } => attributes,
                _ => {
                    assert(false);
                    return Err(ParseError::MissingData);
                },
            };
            let ghost attrs = attributes@.map_values(|m: (String, String)| (m.0@, m.1@));
            assert(t[i as int]->attributes == attrs);
            assert(script_end(t, i + 1) == k);
            assert(scan_scripts(t, i as int, state) == match read_script_element(attrs, text@, state) {
                Ok(next) => scan_scripts(t, k + 1, next),
                Err(e) => Err(e),
            });
            if attribute_is(attributes, "id", "__NEXT_DATA__") {
                let script = chars_to_string(text.as_slice());
                match json_normalize(script.as_str()) {
                    Ok(v) => {
                        next_data = Some(v);
                    },
                    Err(source) => {
                        assert(read_script_element(attrs, text@, state) == Err::<ScanState, ParseErrorKind>(ParseErrorKind::Json("Next.js __NEXT_DATA__"@)));
                        return Err(ParseError::Json { context: "Next.js __NEXT_DATA__", source });
                    },
                }
            } else if find_member(attributes, "src").is_none() {
                let found = read_script(&text, &mut bytes)?;
                has_flight = has_flight || found;
            }
            if k < tokens.len() {
                i = k + 1;
            } else {
                i = k;
            }
        }
        if next_data.is_none() && !has_flight {
            return Err(ParseError::MissingData);
        }
        let flight = parse_records(&bytes)?;
        Ok(NextJsData { next_data, flight })
    }

    /// The compact JSON text of the value that an RFC 6901 pointer selects:
    /// in the first model record where it selects one, then in
    /// `__NEXT_DATA__`. Tagged records are skipped; references are not followed.
    pub fn find(&self, pointer: &str) -> (r: Option<String>)
        ensures
            opt_string_view(r) == find_spec(self@, pointer@),
    {
        let ghost records = self.flight@.map_values(|x: FlightRecord| x@);
        let mut i: usize = 0;
        assert(records.skip(0) =~= records);
        while i < self.flight.len()
            invariant
                records == self.flight@.map_values(|x: FlightRecord| x@),
                0 <= i <= self.flight@.len(),
                find_in_records(records, pointer@) == find_in_records(records.skip(i as int), pointer@),
            decreases self.flight@.len() - i,
        {
            assert(records.skip(i as int).drop_first() =~= records.skip(i + 1));
            let record = &self.flight[i];
            if record.tag.is_none() {
                let found = json_pointer(record.value.as_str(), pointer);
                if found.is_some() {
                    return found;
                }
            }
            i += 1;
        }
        assert(records.skip(i as int) =~= Seq::<RecordView>::empty());
        match &self.next_data {
            Some(d) => json_pointer(d.as_str(), pointer),
            None => None,
        }
    }

    /// The target of `pointer`, read as `T`: `MissingPath` where nothing is
    /// there, a JSON error where the value there does not read as `T`.
    pub fn deserialize<T: FromJson>(&self, pointer: &str) -> (r: Result<T, ParseError>)
        ensures
            r matches Ok(v) ==> deserialize_spec::<T>(self@, pointer@) == Ok::<<T as DeepView>::V, ParseErrorKind>(v.deep_view()),
            r matches Err(e) ==> deserialize_spec::<T>(self@, pointer@) == Err::<<T as DeepView>::V, ParseErrorKind>(e.kind()),
    {
        match self.find(pointer) {
            Some(t) => match T::from_json(t.as_str()) {
                Some(v) => Ok(v),
                None => Err(ParseError::Json {
                    context: "Next.js target data",
                    source: T::json_error(t.as_str()),
                }),
            },
            None => Err(ParseError::MissingPath { pointer: pointer.to_owned() }),
        }
    }
}

/// What [`NextJsData::deserialize`] gives: the target read as `T`, or why not.
pub open spec fn deserialize_spec<T: FromJson>(data: NextJsDataView, pointer: Seq<char>) -> Result<<T as DeepView>::V, ParseErrorKind> {
    match find_spec(data, pointer) {
        Some(t) => match T::json_model(t) {
            Some(v) => Ok(v),
            None => Err(ParseErrorKind::Json("Next.js target data"@)),
        },
        None => Err(ParseErrorKind::MissingPath(pointer)),
    }
}

} // verus!
