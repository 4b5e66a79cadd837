//! Flight records: the newline-delimited `id:tag payload` rows of the byte
//! stream, including byte-counted text rows.
use vstd::prelude::*;
use vstd::utf8::{valid_utf8, decode_utf8};
use crate::json::{json_compact, json_normalize, json_quote, json_string_literal};
use crate::nextjs::error::{ParseError, ParseErrorKind};

verus! {

/// One Flight record.
#[derive(Debug)]
pub struct FlightRecord {
    /// The hexadecimal wire ID as a number; hints may have none.
    pub id: Option<u64>,
    /// `None` for a model record, else the wire tag, such as `I`, `HL`, `D` or `T`.
    pub tag: Option<String>,
    /// The payload as compact JSON text; a text record holds a JSON string.
    pub value: String,
}

/// The mathematical view of a [`FlightRecord`].
pub struct RecordView {
    pub id: Option<u64>,
    pub tag: Option<Seq<char>>,
    pub value: Seq<char>,
}

impl View for FlightRecord {
    type V = RecordView;

    open spec fn view(&self) -> RecordView {
        RecordView {
            id: self.id,
            tag: match self.tag {
                Some(t) => Some(t@),
                None => None,
            },
            value: self.value@,
        }
    }
}

/// `std::str::from_utf8`, as an owned string. It accepts exactly the valid
/// UTF-8 encodings, and decodes them.
#[verifier::external_body]
pub(crate) fn utf8_decode(bytes: &[u8]) -> (r: Option<String>)
    ensures
        r is Some <==> valid_utf8(bytes@),
        r matches Some(s) ==> s@ == decode_utf8(bytes@),
{
    std::str::from_utf8(bytes).ok().map(str::to_owned)
}

/// The first position at or after `from` that holds `x`.
pub open spec fn find_byte(b: Seq<u8>, from: int, x: u8) -> Option<int>
    decreases b.len() - from,
{
    if !(0 <= from < b.len()) {
        None
    } else if b[from] == x {
        Some(from)
    } else {
        find_byte(b, from + 1, x)
    }
}

pub open spec fn is_hex_digit(b: u8) -> bool {
    (48 <= b <= 57) || (65 <= b <= 70) || (97 <= b <= 102)
}

pub open spec fn hex_digit_value(b: u8) -> nat {
    if 48 <= b <= 57 {
        (b - 48) as nat
    } else if 65 <= b <= 70 {
        (b - 55) as nat
    } else {
        (b - 87) as nat
    }
}

/// The number that a string of hexadecimal digits denotes.
pub open spec fn hex_number(d: Seq<u8>) -> nat
    decreases d.len(),
{
    if d.len() == 0 {
        0
    } else {
        hex_number(d.drop_last()) * 16 + hex_digit_value(d.last())
    }
}

/// A non-empty string of hexadecimal digits read as a `u64`, or `None`
/// where it is empty, holds another byte, or overflows.
pub open spec fn hex_value(d: Seq<u8>) -> Option<u64> {
    if d.len() > 0 && (forall|i: int| 0 <= i < d.len() ==> is_hex_digit(#[trigger] d[i]))
        && hex_number(d) <= u64::MAX {
        Some(hex_number(d) as u64)
    } else {
        None
    }
}

/// Bytes that open binary typed-array records, which are not supported.
pub open spec fn is_typed_array_tag(b: u8) -> bool {
    ||| b == 65 || b == 79 || b == 111 || b == 85 || b == 83 || b == 115
    ||| b == 76 || b == 108 || b == 71 || b == 103 || b == 77 || b == 86
}

pub open spec fn is_ascii_upper(b: u8) -> bool {
    65 <= b <= 90
}

pub open spec fn is_ascii_alpha(b: u8) -> bool {
    (65 <= b <= 90) || (97 <= b <= 122)
}

/// Bytes of ASCII as the characters they encode.
pub open spec fn ascii_chars(b: Seq<u8>) -> Seq<char> {
    b.map_values(|x: u8| x as char)
}

/// The length of the tag that starts at `p`: one byte for an uppercase
/// letter, `r` or `x`, two for `H` followed by a letter, else none.
pub open spec fn tag_length(b: Seq<u8>, p: int) -> int {
    if is_ascii_upper(b[p]) || b[p] == 114 || b[p] == 120 {
        if b[p] == 72 && p + 1 < b.len() && is_ascii_alpha(b[p + 1]) {
            2
        } else {
            1
        }
    } else {
        0
    }
}

/// Removes every carriage return at the end.
pub open spec fn trim_trailing_cr(s: Seq<char>) -> Seq<char>
    decreases s.len(),
{
    if s.len() > 0 && s.last() == '\r' {
        trim_trailing_cr(s.drop_last())
    } else {
        s
    }
}

/// Tags whose record may have an empty payload, which stands for `null`.
pub open spec fn tag_allows_empty(tag: Option<Seq<char>>) -> bool {
    tag == Some("R"@) || tag == Some("r"@) || tag == Some("X"@) || tag == Some("x"@) || tag
        == Some("C"@)
}

pub open spec fn record_error(offset: int, reason: Seq<char>) -> ParseErrorKind {
    ParseErrorKind::Record(offset as nat, reason)
}

/// A text record `T<hex length>,<text>` whose length field starts at `q`.
pub open spec fn text_record(b: Seq<u8>, offset: int, id: Option<u64>, q: int) -> Result<(RecordView, int), ParseErrorKind> {
    match find_byte(b, q, 44) {
        None => Err(record_error(offset, "missing text length separator"@)),
        Some(comma) => match hex_value(b.subrange(q, comma)) {
            Some(length) if length <= usize::MAX => {
                let start = comma + 1;
                let end = start + length;
                if end > usize::MAX {
                    Err(record_error(offset, "text length overflow"@))
                } else if end > b.len() || !valid_utf8(b.subrange(start, end)) {
                    Err(record_error(offset, "truncated text or invalid UTF-8"@))
                } else {
                    Ok((
                        RecordView {
                            id,
                            tag: Some("T"@),
                            value: json_string_literal(decode_utf8(b.subrange(start, end))),
                        },
                        end,
                    ))
                }
            },
            _ => Err(record_error(offset, "invalid text length"@)),
        },
    }
}

/// A JSON record: an optional tag at `p`, then a JSON payload up to the end of the line.
pub open spec fn json_record(b: Seq<u8>, offset: int, id: Option<u64>, p: int) -> Result<(RecordView, int), ParseErrorKind> {
    let q = p + tag_length(b, p);
    let tag = if q > p {
        Some(ascii_chars(b.subrange(p, q)))
    } else {
        None
    };
    let end = match find_byte(b, q, 10) {
        Some(e) => e,
        None => b.len() as int,
    };
    if !valid_utf8(b.subrange(q, end)) {
        Err(record_error(offset, "invalid UTF-8"@))
    } else {
        let payload = trim_trailing_cr(decode_utf8(b.subrange(q, end)));
        if payload.len() == 0 && tag_allows_empty(tag) {
            Ok((RecordView { id, tag, value: "null"@ }, end))
        } else {
            match json_compact(payload) {
                Some(value) => Ok((RecordView { id, tag, value }, end)),
                None => Err(ParseErrorKind::Json("Next.js Flight record JSON"@)),
            }
        }
    }
}

/// The record that starts at `pos` and where the next one may start.
pub open spec fn record_at(b: Seq<u8>, pos: int) -> Result<(RecordView, int), ParseErrorKind> {
    match find_byte(b, pos, 58) {
        None => Err(record_error(pos, "missing record separator"@)),
        Some(colon) => {
            let id: Option<Option<u64>> = if colon == pos {
                Some(None)
            } else {
                match hex_value(b.subrange(pos, colon)) {
                    Some(v) => Some(Some(v)),
                    None => None,
                }
            };
            match id {
                None => Err(record_error(pos, "invalid hexadecimal ID"@)),
                Some(id) => {
                    let p = colon + 1;
                    if p >= b.len() {
                        Err(record_error(pos, "missing payload"@))
                    } else if b[p] == 84 {
                        text_record(b, pos, id, p + 1)
                    } else if is_typed_array_tag(b[p]) {
                        Err(record_error(pos, "binary typed-array records are unsupported"@))
                    } else {
                        json_record(b, pos, id, p)
                    }
                },
            }
        },
    }
}

pub proof fn lemma_find_byte(b: Seq<u8>, from: int, x: u8)
    requires
        0 <= from,
    ensures
        find_byte(b, from, x) matches Some(i) ==> from <= i < b.len() && b[i] == x,
        find_byte(b, from, x) is None ==> forall|k: int| from <= k < b.len() ==> b[k] != x,
        find_byte(b, from, x) matches Some(i) ==> forall|k: int| from <= k < i ==> b[k] != x,
    decreases b.len() - from,
{
    if from < b.len() && b[from] != x {
        lemma_find_byte(b, from + 1, x);
    }
}

pub proof fn lemma_record_at_progress(b: Seq<u8>, pos: int)
    requires
        0 <= pos < b.len(),
    ensures
        record_at(b, pos) matches Ok((r, next)) ==> pos < next <= b.len(),
{
    lemma_find_byte(b, pos, 58);
    if let Some(colon) = find_byte(b, pos, 58) {
        let p = colon + 1;
        if p < b.len() {
            if b[p] == 84 {
                lemma_find_byte(b, p + 1, 44);
            } else {
                let q = p + tag_length(b, p);
                lemma_find_byte(b, q, 10);
            }
        }
    }
}

/// The records from position `pos` on, after the records `done`; blank line
/// ends between records are skipped.
pub open spec fn records_from(b: Seq<u8>, pos: int, done: Seq<RecordView>) -> Result<Seq<RecordView>, ParseErrorKind>
    decreases b.len() - pos,
{
    if !(0 <= pos < b.len()) {
        Ok(done)
    } else if b[pos] == 10 || b[pos] == 13 {
        records_from(b, pos + 1, done)
    } else {
        proof {
            lemma_record_at_progress(b, pos);
        }
        match record_at(b, pos) {
            Err(e) => Err(e),
            Ok((r, next)) => records_from(b, next, done.push(r)),
        }
    }
}

/// The records of a whole byte stream, in wire order.
pub open spec fn parse_records_spec(b: Seq<u8>) -> Result<Seq<RecordView>, ParseErrorKind> {
    records_from(b, 0, Seq::empty())
}

proof fn lemma_find_byte_prefix(a: Seq<u8>, b: Seq<u8>, k: int, x: u8)
    requires
        0 <= k,
        find_byte(a, k, x) is Some,
    ensures
        find_byte(a + b, k, x) == find_byte(a, k, x),
    decreases a.len() - k,
{
    if k < a.len() && a[k] != x {
        lemma_find_byte_prefix(a, b, k + 1, x);
    }
}

proof fn lemma_find_byte_shift(a: Seq<u8>, b: Seq<u8>, k: int, x: u8)
    requires
        0 <= k,
    ensures
        find_byte(a + b, a.len() + k, x) == match find_byte(b, k, x) {
            Some(i) => Some(a.len() + i),
            None => None::<int>,
        },
    decreases b.len() - k,
{
    if k < b.len() {
        assert((a + b)[a.len() + k] == b[k]);
        if b[k] != x {
            lemma_find_byte_shift(a, b, k + 1, x);
            assert(a.len() + k + 1 == a.len() + (k + 1));
        }
    }
}

proof fn lemma_find_byte_exists(b: Seq<u8>, from: int, x: u8, at: int)
    requires
        0 <= from <= at < b.len(),
        b[at] == x,
    ensures
        find_byte(b, from, x) is Some,
{
    lemma_find_byte(b, from, x);
}

/// A record that reads whole within `a`, which ends with a line end, reads
/// the same whatever follows `a`.
proof fn lemma_record_at_prefix(a: Seq<u8>, b: Seq<u8>, k: int)
    requires
        0 <= k < a.len(),
        a.last() == 10,
        record_at(a, k) is Ok,
    ensures
        record_at(a + b, k) == record_at(a, k),
{
    let c = a + b;
    lemma_find_byte(a, k, 58);
    let colon = find_byte(a, k, 58)->Some_0;
    lemma_find_byte_prefix(a, b, k, 58);
    assert(c.subrange(k, colon) =~= a.subrange(k, colon));
    let p = colon + 1;
    assert(p < a.len());
    assert(c[p] == a[p]);
    if a[p] == 84 {
        lemma_find_byte(a, p + 1, 44);
        let comma = find_byte(a, p + 1, 44)->Some_0;
        lemma_find_byte_prefix(a, b, p + 1, 44);
        assert(c.subrange(p + 1, comma) =~= a.subrange(p + 1, comma));
        let length = hex_value(a.subrange(p + 1, comma));
        if let Some(n) = length {
            let end = comma + 1 + n;
            if end <= a.len() {
                assert(c.subrange(comma + 1, end) =~= a.subrange(comma + 1, end));
            }
        }
    } else if !is_typed_array_tag(a[p]) {
        let tl = tag_length(a, p);
        assert(p < a.len() - 1 || tl == 0);
        if tl == 2 {
            assert(c[p + 1] == a[p + 1]);
        }
        assert(tag_length(c, p) == tl);
        let q = p + tl;
        assert(q <= a.len() - 1);
        lemma_find_byte_exists(a, q, 10, a.len() - 1);
        lemma_find_byte(a, q, 10);
        lemma_find_byte_prefix(a, b, q, 10);
        let e = find_byte(a, q, 10)->Some_0;
        assert(c.subrange(p, q) =~= a.subrange(p, q));
        assert(c.subrange(q, e) =~= a.subrange(q, e));
    }
}

/// A record of `b` reads the same after any prefix, moved by its length.
proof fn lemma_record_at_shift(a: Seq<u8>, b: Seq<u8>, k: int)
    requires
        0 <= k < b.len(),
        a.len() + b.len() <= usize::MAX,
        record_at(b, k) is Ok,
    ensures
        record_at(a + b, a.len() + k) == Ok::<(RecordView, int), ParseErrorKind>(
            (record_at(b, k)->Ok_0.0, a.len() + record_at(b, k)->Ok_0.1),
        ),
{
    let c = a + b;
    let o = a.len() as int;
    lemma_find_byte(b, k, 58);
    lemma_find_byte_shift(a, b, k, 58);
    let colon = find_byte(b, k, 58)->Some_0;
    assert(c.subrange(o + k, o + colon) =~= b.subrange(k, colon));
    let p = colon + 1;
    assert(c[o + p] == b[p]);
    if b[p] == 84 {
        lemma_find_byte(b, p + 1, 44);
        lemma_find_byte_shift(a, b, p + 1, 44);
        let comma = find_byte(b, p + 1, 44)->Some_0;
        assert(c.subrange(o + p + 1, o + comma) =~= b.subrange(p + 1, comma));
        let length = hex_value(b.subrange(p + 1, comma));
        if let Some(n) = length {
            let end = comma + 1 + n;
            if end <= b.len() {
                assert(c.subrange(o + comma + 1, o + end) =~= b.subrange(comma + 1, end));
            }
        }
    } else if !is_typed_array_tag(b[p]) {
        let tl = tag_length(b, p);
        if p + 1 < b.len() {
            assert(c[o + p + 1] == b[p + 1]);
        }
        assert(tag_length(c, o + p) == tl);
        let q = p + tl;
        lemma_find_byte(b, q, 10);
        lemma_find_byte_shift(a, b, q, 10);
        assert(c.subrange(o + p, o + q) =~= b.subrange(p, q));
        match find_byte(b, q, 10) {
            Some(e) => {
                assert(c.subrange(o + q, o + e) =~= b.subrange(q, e));
            },
            None => {
                assert(c.subrange(o + q, c.len() as int) =~= b.subrange(q, b.len() as int));
            },
        }
    }
}

proof fn lemma_records_prefix(a: Seq<u8>, b: Seq<u8>, k: int, done: Seq<RecordView>)
    requires
        0 <= k <= a.len(),
        a.len() > 0 ==> a.last() == 10,
        records_from(a, k, done) is Ok,
    ensures
        records_from(a + b, k, done) == records_from(a + b, a.len() as int, records_from(a, k, done)->Ok_0),
    decreases a.len() - k,
{
    let c = a + b;
    if k < a.len() {
        assert(c[k] == a[k]);
        if a[k] == 10 || a[k] == 13 {
            lemma_records_prefix(a, b, k + 1, done);
        } else {
            lemma_record_at_progress(a, k);
            lemma_record_at_prefix(a, b, k);
            let (r, next) = record_at(a, k)->Ok_0;
            lemma_records_prefix(a, b, next, done.push(r));
        }
    }
}

proof fn lemma_records_shift(a: Seq<u8>, b: Seq<u8>, k: int, done: Seq<RecordView>)
    requires
        0 <= k <= b.len(),
        a.len() + b.len() <= usize::MAX,
        records_from(b, k, done) is Ok,
    ensures
        records_from(a + b, a.len() + k, done) == records_from(b, k, done),
    decreases b.len() - k,
{
    let c = a + b;
    if k < b.len() {
        assert(c[a.len() + k] == b[k]);
        if b[k] == 10 || b[k] == 13 {
            lemma_records_shift(a, b, k + 1, done);
            assert(a.len() + k + 1 == a.len() + (k + 1));
        } else {
            lemma_record_at_progress(b, k);
            lemma_record_at_shift(a, b, k);
            let (r, next) = record_at(b, k)->Ok_0;
            lemma_records_shift(a, b, next, done.push(r));
        }
    }
}

proof fn lemma_records_after(b: Seq<u8>, k: int, d: Seq<RecordView>, e: Seq<RecordView>)
    requires
        0 <= k,
        records_from(b, k, e) is Ok,
    ensures
        records_from(b, k, d + e) == Ok::<Seq<RecordView>, ParseErrorKind>(d + records_from(b, k, e)->Ok_0),
    decreases b.len() - k,
{
    if 0 <= k < b.len() {
        if b[k] == 10 || b[k] == 13 {
            lemma_records_after(b, k + 1, d, e);
        } else {
            lemma_record_at_progress(b, k);
            let (r, next) = record_at(b, k)->Ok_0;
            lemma_records_after(b, next, d, e.push(r));
            assert((d + e).push(r) =~= d + e.push(r));
        }
    }
}

/// Records come out in wire order and none is merged or dropped: the
/// records of two streams, the first ending with a line end, are the
/// records of the first followed by those of the second.
pub proof fn lemma_records_concatenate(a: Seq<u8>, b: Seq<u8>)
    requires
        a.len() == 0 || a.last() == 10,
        a.len() + b.len() <= usize::MAX,
        parse_records_spec(a) is Ok,
        parse_records_spec(b) is Ok,
    ensures
        parse_records_spec(a + b) == Ok::<Seq<RecordView>, ParseErrorKind>(
            parse_records_spec(a)->Ok_0 + parse_records_spec(b)->Ok_0,
        ),
{
    let ra = parse_records_spec(a)->Ok_0;
    let rb = parse_records_spec(b)->Ok_0;
    lemma_records_prefix(a, b, 0, Seq::empty());
    lemma_records_after(b, 0, ra, Seq::empty());
    assert(ra + Seq::<RecordView>::empty() =~= ra);
    lemma_records_shift(a, b, 0, ra);
    assert(a.len() + 0 == a.len());
}

/// Binary typed-array records are refused: after any stream of whole
/// records, a record whose payload opens with a typed-array tag is an error
/// at the byte where that record starts.
pub proof fn lemma_typed_array_refused(p: Seq<u8>, id: Seq<u8>, tag: u8, rest: Seq<u8>)
    requires
        p.len() == 0 || p.last() == 10,
        parse_records_spec(p) is Ok,
        id.len() == 0 || hex_value(id) is Some,
        is_typed_array_tag(tag),
    ensures
        parse_records_spec(p + (id + seq![58u8, tag] + rest)) == Err::<Seq<RecordView>, ParseErrorKind>(
            record_error(p.len() as int, "binary typed-array records are unsupported"@),
        ),
{
    let r = id + seq![58u8, tag] + rest;
    let c = p + r;
    let o = p.len() as int;
    lemma_records_prefix(p, r, 0, Seq::empty());
    let rp = parse_records_spec(p)->Ok_0;
    assert(c[o] == r[0]);
    if id.len() > 0 {
        assert(is_hex_digit(id[0]));
    }
    assert(r[0] != 10 && r[0] != 13);
    assert forall|k: int| o <= k < o + id.len() implies #[trigger] c[k] != 58 by {
        assert(c[k] == id[k - o]);
        assert(is_hex_digit(id[k - o]));
    }
    assert(c[o + id.len()] == 58);
    lemma_find_byte(c, o, 58);
    lemma_find_byte_exists(c, o, 58, o + id.len());
    let colon = find_byte(c, o, 58)->Some_0;
    assert(colon == o + id.len()) by {
        if colon < o + id.len() {
            assert(c[colon] != 58);
        }
        if colon > o + id.len() {
            assert(c[o + id.len()] != 58);
        }
    }
    assert(c.subrange(o, colon) =~= id);
    assert(c[colon + 1] == tag);
}

fn find_byte_exec(b: &Vec<u8>, from: usize, x: u8) -> (r: Option<usize>)
    requires
        from <= b@.len(),
    ensures
        r matches Some(i) ==> find_byte(b@, from as int, x) == Some(i as int),
        r is None ==> find_byte(b@, from as int, x) is None,
{
    let mut i = from;
    while i < b.len()
        invariant
            from <= i <= b@.len(),
            find_byte(b@, from as int, x) == find_byte(b@, i as int, x),
        decreases b@.len() - i,
    {
        if b[i] == x {
            return Some(i);
        }
        i += 1;
    }
    None
}

proof fn lemma_hex_number_push(d: Seq<u8>, x: u8)
    ensures
        hex_number(d.push(x)) == hex_number(d) * 16 + hex_digit_value(x),
{
    assert(d.push(x).drop_last() =~= d);
}

/// The hexadecimal number in `b[from..to]`.
pub fn hex(b: &Vec<u8>, from: usize, to: usize) -> (r: Option<u64>)
    requires
        from <= to <= b@.len(),
    ensures
        r == hex_value(b@.subrange(from as int, to as int)),
{
    let ghost d = b@.subrange(from as int, to as int);
    if from == to {
        return None;
    }
    let mut value: u64 = 0;
    let mut i = from;
    while i < to
        invariant
            from <= i <= to <= b@.len(),
            d == b@.subrange(from as int, to as int),
            forall|k: int| from <= k < i ==> is_hex_digit(#[trigger] b@[k]),
            value == hex_number(b@.subrange(from as int, i as int)),
        decreases to - i,
    {
        let c = b[i];
        let digit: u64 = if 48 <= c && c <= 57 {
            (c - 48) as u64
        } else if 65 <= c && c <= 70 {
            (c - 55) as u64
        } else if 97 <= c && c <= 102 {
            (c - 87) as u64
        } else {
            assert(!is_hex_digit(d[i - from]));
            return None;
        };
        proof {
            lemma_hex_number_push(b@.subrange(from as int, i as int), c);
            assert(b@.subrange(from as int, i as int).push(c) =~= b@.subrange(from as int, i + 1));
        }
        if value > (u64::MAX - digit) / 16 {
            // every further digit keeps the number above u64::MAX
            proof {
                lemma_hex_overflow_stays(b@, from as int, i + 1, to as int);
            }
            return None;
        }
        value = value * 16 + digit;
        i += 1;
    }
    assert(forall|k: int| 0 <= k < d.len() ==> is_hex_digit(#[trigger] d[k]) <== is_hex_digit(b@[from + k]));
    Some(value)
}

proof fn lemma_hex_number_monotone(d: Seq<u8>, j: int)
    requires
        0 <= j <= d.len(),
    ensures
        hex_number(d) >= hex_number(d.subrange(0, j)),
    decreases d.len() - j,
{
    if j < d.len() {
        lemma_hex_number_monotone(d, j + 1);
        lemma_hex_number_push(d.subrange(0, j), d[j]);
        assert(d.subrange(0, j).push(d[j]) =~= d.subrange(0, j + 1));
        let h = hex_number(d.subrange(0, j));
        assert(h * 16 >= h) by (nonlinear_arith);
    } else {
        assert(d.subrange(0, j) =~= d);
    }
}

proof fn lemma_hex_overflow_stays(b: Seq<u8>, from: int, i: int, to: int)
    requires
        0 <= from <= i <= to <= b.len(),
        hex_number(b.subrange(from, i)) > u64::MAX,
    ensures
        hex_value(b.subrange(from, to)) is None,
{
    let d = b.subrange(from, to);
    lemma_hex_number_monotone(d, i - from);
    assert(d.subrange(0, i - from) =~= b.subrange(from, i));
}

fn record_err(offset: usize, reason: &'static str) -> (e: ParseError)
    ensures
        e == (ParseError::Record { offset, reason }),
{
    ParseError::Record { offset, reason }
}

/// Converts ASCII bytes to a string.
fn ascii_to_string(b: &Vec<u8>, from: usize, to: usize) -> (s: String)
    requires
        from <= to <= b@.len(),
        forall|k: int| from <= k < to ==> b@[k] < 128,
    ensures
        s@ == ascii_chars(b@.subrange(from as int, to as int)),
{
    let mut chars: Vec<char> = Vec::new();
    let mut i = from;
    while i < to
        invariant
            from <= i <= to <= b@.len(),
            forall|k: int| from <= k < to ==> b@[k] < 128,
            chars@ == ascii_chars(b@.subrange(from as int, i as int)),
        decreases to - i,
    {
        let c = b[i] as char;
        chars.push(c);
        i += 1;
        assert(chars@ =~= ascii_chars(b@.subrange(from as int, i as int)));
    }
    crate::text::chars_to_string(chars.as_slice())
}

fn trim_cr(s: &String) -> (r: Vec<char>)
    ensures
        r@ == trim_trailing_cr(s@),
{
    let mut chars = crate::text::str_chars(s.as_str());
    while chars.len() > 0 && chars[chars.len() - 1] == '\r'
        invariant
            trim_trailing_cr(chars@) == trim_trailing_cr(s@),
        decreases chars@.len(),
    {
        let ghost before = chars@;
        chars.pop();
        assert(chars@ =~= before.drop_last());
    }
    chars
}

fn slice_of(b: &Vec<u8>, from: usize, to: usize) -> (r: Vec<u8>)
    requires
        from <= to <= b@.len(),
    ensures
        r@ == b@.subrange(from as int, to as int),
{
    let mut r: Vec<u8> = Vec::new();
    let mut i = from;
    while i < to
        invariant
            from <= i <= to <= b@.len(),
            r@ == b@.subrange(from as int, i as int),
        decreases to - i,
    {
        r.push(b[i]);
        i += 1;
        assert(r@ =~= b@.subrange(from as int, i as int));
    }
    r
}

fn is_empty_payload_tag(tag: &Option<String>) -> (r: bool)
    ensures
        r == tag_allows_empty(match tag {
            Some(t) => Some(t@),
            None => None,
        }),
{
    match tag {
        Some(t) => {
            let c = crate::text::str_chars(t.as_str());
            proof {
                reveal_strlit("R");
                reveal_strlit("r");
                reveal_strlit("X");
                reveal_strlit("x");
                reveal_strlit("C");
            }
            let r = c.len() == 1 && (c[0] == 'R' || c[0] == 'r' || c[0] == 'X' || c[0] == 'x' || c[0]
                == 'C');
            proof {
                if c@.len() == 1 {
                    assert(c@ =~= seq![c@[0]]);
                }
                assert("R"@ =~= seq!['R']);
                assert("r"@ =~= seq!['r']);
                assert("X"@ =~= seq!['X']);
                assert("x"@ =~= seq!['x']);
                assert("C"@ =~= seq!['C']);
            }
            r
        },
        None => false,
    }
}

/// The record at `pos`, which does not hold a line end.
fn read_record(b: &Vec<u8>, pos: usize) -> (r: Result<(FlightRecord, usize), ParseError>)
    requires
        pos < b@.len(),
    ensures
        r matches Ok((rec, next)) ==> record_at(b@, pos as int) == Ok::<(RecordView, int), ParseErrorKind>((rec@, next as int)),
        r matches Err(e) ==> record_at(b@, pos as int) == Err::<(RecordView, int), ParseErrorKind>(e.kind()),
{
    let colon = match find_byte_exec(b, pos, 58) {
        None => return Err(record_err(pos, "missing record separator")),
        Some(c) => c,
    };
    proof {
        lemma_find_byte(b@, pos as int, 58);
    }
    let id = if colon == pos {
        None
    } else {
        match hex(b, pos, colon) {
            Some(v) => Some(v),
            None => return Err(record_err(pos, "invalid hexadecimal ID")),
        }
    };
    assert(b@.len() == b.len());
    let p = colon + 1;
    if p >= b.len() {
        return Err(record_err(pos, "missing payload"));
    }
    let first = b[p];
    if first == 84 {
        let q = p + 1;
        let comma = match find_byte_exec(b, q, 44) {
            None => return Err(record_err(pos, "missing text length separator")),
            Some(c) => c,
        };
        proof {
            lemma_find_byte(b@, q as int, 44);
        }
        let length = match hex(b, q, comma) {
            Some(n) if n <= usize::MAX as u64 => n as usize,
            _ => return Err(record_err(pos, "invalid text length")),
        };
        let start = comma + 1;
        let end = match start.checked_add(length) {
            Some(e) => e,
            None => return Err(record_err(pos, "text length overflow")),
        };
        if end > b.len() {
            return Err(record_err(pos, "truncated text or invalid UTF-8"));
        }
        let text_bytes = slice_of(b, start, end);
        let text = match utf8_decode(text_bytes.as_slice()) {
            Some(t) => t,
            None => return Err(record_err(pos, "truncated text or invalid UTF-8")),
        };
        proof {
            reveal_strlit("T");
        }
        let rec = FlightRecord { id, tag: Some("T".to_owned()), value: json_quote(text.as_str()) };
        return Ok((rec, end));
    }
    if first == 65 || first == 79 || first == 111 || first == 85 || first == 83 || first == 115
        || first == 76 || first == 108 || first == 71 || first == 103 || first == 77 || first
        == 86 {
        return Err(record_err(pos, "binary typed-array records are unsupported"));
    }
    let mut q = p;
    if (65 <= first && first <= 90) || first == 114 || first == 120 {
        q = p + 1;
        if first == 72 && q < b.len() && ((65 <= b[q] && b[q] <= 90) || (97 <= b[q] && b[q] <= 122)) {
            q = q + 1;
        }
    }
    assert(q == p + tag_length(b@, p as int));
    let tag = if q > p {
        Some(ascii_to_string(b, p, q))
    } else {
        None
    };
    let end = match find_byte_exec(b, q, 10) {
        Some(e) => e,
        None => b.len(),
    };
    proof {
        lemma_find_byte(b@, q as int, 10);
    }
    let payload_bytes = slice_of(b, q, end);
    let payload = match utf8_decode(payload_bytes.as_slice()) {
        Some(t) => t,
        None => return Err(record_err(pos, "invalid UTF-8")),
    };
    let trimmed = trim_cr(&payload);
    if trimmed.len() == 0 && is_empty_payload_tag(&tag) {
        return Ok((FlightRecord { id, tag, value: "null".to_owned() }, end));
    }
    let payload_text = crate::text::chars_to_string(trimmed.as_slice());
    match json_normalize(payload_text.as_str()) {
        Ok(value) => Ok((FlightRecord { id, tag, value }, end)),
        Err(source) => Err(ParseError::Json { context: "Next.js Flight record JSON", source }),
    }
}

/// Parses the byte stream into records, in wire order, keeping repeated and
/// absent IDs.
pub fn parse_records(b: &Vec<u8>) -> (r: Result<Vec<FlightRecord>, ParseError>)
    ensures
        r matches Ok(records) ==> parse_records_spec(b@) == Ok::<Seq<RecordView>, ParseErrorKind>(
            records@.map_values(|x: FlightRecord| x@),
        ),
        r matches Err(e) ==> parse_records_spec(b@) == Err::<Seq<RecordView>, ParseErrorKind>(
            e.kind(),
        ),
{
    let mut result: Vec<FlightRecord> = Vec::new();
    let mut pos: usize = 0;
    assert(result@.map_values(|x: FlightRecord| x@) =~= Seq::<RecordView>::empty());
    while pos < b.len()
        invariant
            0 <= pos <= b@.len(),
            parse_records_spec(b@) == records_from(b@, pos as int, result@.map_values(|x: FlightRecord| x@)),
        decreases b@.len() - pos,
    {
        if b[pos] == 10 || b[pos] == 13 {
            pos += 1;
            continue;
        }
        proof {
            lemma_record_at_progress(b@, pos as int);
        }
        let (rec, next) = read_record(b, pos)?;
        let ghost before = result@.map_values(|x: FlightRecord| x@);
        result.push(rec);
        assert(result@.map_values(|x: FlightRecord| x@) =~= before.push(rec@));
        pos = next;
    }
    Ok(result)
}

} // verus!
