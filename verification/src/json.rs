//! JSON values as the library holds them: the compact text that serde_json
//! prints for a parsed value. Parsing, printing and pointer lookup are
//! serde_json's; the trusted items below state what the library relies on.
use vstd::prelude::*;
use serde_json::Value;

verus! {

/// serde_json's parse error, carried through unchanged.
#[verifier::external_type_specification]
#[verifier::external_body]
pub struct ExJsonError(serde_json::Error);

/// One level of a parsed JSON value; nested values are given as their compact text.
#[derive(Clone, Debug, PartialEq, Eq)]
pub enum JsonShape {
    Null,
    Bool(bool),
    /// A number, with its value as `u64` and as `i64` where it has one.
    Number { unsigned: Option<u64>, signed: Option<i64> },
    Str(String),
    Array(Vec<String>),
    /// Members in the order serde_json keeps them, each key once.
    Object(Vec<(String, String)>),
}

/// The mathematical view of [`JsonShape`].
pub enum JsonShapeView {
    Null,
    Bool(bool),
    Number { unsigned: Option<u64>, signed: Option<i64> },
    Str(Seq<char>),
    Array(Seq<Seq<char>>),
    Object(Seq<(Seq<char>, Seq<char>)>),
}

impl View for JsonShape {
    type V = JsonShapeView;

    open spec fn view(&self) -> JsonShapeView {
        match self {
            JsonShape::Null => JsonShapeView::Null,
            JsonShape::Bool(b) => JsonShapeView::Bool(*b),
            JsonShape::Number { unsigned, signed } => JsonShapeView::Number {
                unsigned: *unsigned,
                signed: *signed,
            },
            JsonShape::Str(s) => JsonShapeView::Str(s@),
            JsonShape::Array(items) => JsonShapeView::Array(items@.map_values(|t: String| t@)),
            JsonShape::Object(members) => JsonShapeView::Object(
                members@.map_values(|m: (String, String)| (m.0@, m.1@)),
            ),
        }
    }
}

/// The view of an optional string.
pub open spec fn opt_string_view(o: Option<String>) -> Option<Seq<char>> {
    match o {
        Some(s) => Some(s@),
        None => None,
    }
}

/// The view of an optional shape.
pub open spec fn opt_shape_view(o: Option<JsonShape>) -> Option<JsonShapeView> {
    match o {
        Some(s) => Some(s@),
        None => None,
    }
}

/// What serde_json parses `text` to, one level deep, or `None` where the
/// text is not a JSON document.
pub uninterp spec fn json_shape_of(text: Seq<char>) -> Option<JsonShapeView>;

/// The compact text that serde_json prints for the value it parses from
/// `text`, or `None` where the text is not a JSON document.
pub uninterp spec fn json_compact(text: Seq<char>) -> Option<Seq<char>>;

/// The first value of a stream of JSON values that starts at the beginning of
/// `text`: `None` where it is malformed, `Some(None)` where only whitespace
/// is left, and otherwise the value's compact text with the number of
/// characters that the value and the whitespace before it take.
pub uninterp spec fn json_stream_first(text: Seq<char>) -> Option<Option<(Seq<char>, nat)>>;

/// The compact text of the value that the JSON pointer `pointer` selects in
/// the document `text`, if the text parses and the pointer selects a value.
pub uninterp spec fn json_pointer_target(text: Seq<char>, pointer: Seq<char>) -> Option<Seq<char>>;

/// The JSON string literal, quoted and escaped as serde_json writes it, for the text `s`.
pub open spec fn json_string_literal(s: Seq<char>) -> Seq<char> {
    seq!['"'] + json_escape(s) + seq!['"']
}

/// A lowercase hexadecimal digit.
pub open spec fn lower_hex_digit(n: int) -> char {
    if n < 10 {
        (n + 48) as char
    } else {
        (n - 10 + 97) as char
    }
}

/// How serde_json writes one character inside a string literal: `"` and
/// `\` and the control characters below U+0020 are escaped, the ones with a
/// short escape by it, the others as `\u00` and two lowercase hex digits;
/// every other character stands as it is.
pub open spec fn json_escape_char(c: char) -> Seq<char> {
    if c == '"' {
        seq!['\\', '"']
    } else if c == '\\' {
        seq!['\\', '\\']
    } else if c == '\u{8}' {
        seq!['\\', 'b']
    } else if c == '\t' {
        seq!['\\', 't']
    } else if c == '\n' {
        seq!['\\', 'n']
    } else if c == '\u{c}' {
        seq!['\\', 'f']
    } else if c == '\r' {
        seq!['\\', 'r']
    } else if (c as int) < 32 {
        seq!['\\', 'u', '0', '0', lower_hex_digit((c as int) / 16), lower_hex_digit((c as int) % 16)]
    } else {
        seq![c]
    }
}

/// The characters of a text as serde_json writes them inside a string literal.
pub open spec fn json_escape(s: Seq<char>) -> Seq<char>
    decreases s.len(),
{
    if s.len() == 0 {
        Seq::empty()
    } else {
        json_escape_char(s[0]) + json_escape(s.drop_first())
    }
}

/// Text that parses as JSON: every nested value of it parses again.
pub open spec fn nested_texts_parse(shape: JsonShapeView) -> bool {
    match shape {
        JsonShapeView::Array(items) => forall|i: int|
            0 <= i < items.len() ==> (#[trigger] json_shape_of(items[i])) is Some,
        JsonShapeView::Object(members) => forall|i: int|
            0 <= i < members.len() ==> (#[trigger] json_shape_of(members[i].1)) is Some,
        _ => true,
    }
}

/// No two members share a key.
pub open spec fn distinct_keys<V>(members: Seq<(Seq<char>, V)>) -> bool {
    forall|i: int, j: int| 0 <= i < j < members.len() ==> #[trigger] members[i].0 != #[trigger] members[j].0
}

/// An object's keys occur once each; other shapes have no keys.
pub open spec fn keys_once(shape: JsonShapeView) -> bool {
    match shape {
        JsonShapeView::Object(members) => distinct_keys(members),
        _ => true,
    }
}

/// `serde_json::from_str::<Value>` followed by a one-level match on the
/// value; nested values are printed with `Value`'s `Display`. The result is
/// the name `json_shape_of`; and since serde_json prints what it can parse
/// back, every nested text parses again; and since an object is a
/// `serde_json::Map`, each of its keys occurs once.
#[verifier::external_body]
pub(crate) fn json_shape(text: &str) -> (r: Option<JsonShape>)
    ensures
        opt_shape_view(r) == json_shape_of(text@),
        r matches Some(s) ==> nested_texts_parse(s@),
        r matches Some(s) ==> keys_once(s@),
{
    Some(match serde_json::from_str::<Value>(text).ok()? {
        Value::Null => JsonShape::Null,
        Value::Bool(b) => JsonShape::Bool(b),
        Value::Number(n) => JsonShape::Number { unsigned: n.as_u64(), signed: n.as_i64() },
        Value::String(s) => JsonShape::Str(s),
        Value::Array(a) => JsonShape::Array(a.iter().map(Value::to_string).collect()),
        Value::Object(m) => JsonShape::Object(m.into_iter().map(|(k, v)| (k, v.to_string())).collect()),
    })
}

/// `serde_json::from_str::<Value>`, the value printed back with `Display`.
/// Ok is the name `json_compact`, and the printed text parses again.
#[verifier::external_body]
pub(crate) fn json_normalize(text: &str) -> (r: Result<String, serde_json::Error>)
    ensures
        r is Ok <==> json_compact(text@) is Some,
        r matches Ok(t) ==> json_compact(text@) == Some(t@) && json_shape_of(t@) is Some,
{
    serde_json::from_str::<Value>(text).map(|v| v.to_string())
}

/// One step of `serde_json::StreamDeserializer::<Value>` over the text of
/// `chars[start..]`. The number of characters read is the stream's byte
/// offset after the value, converted to characters; it never passes the end.
#[verifier::external_body]
pub(crate) fn json_first_value(chars: &Vec<char>, start: usize) -> (r: Result<Option<(String, usize)>, serde_json::Error>)
    requires
        start <= chars@.len(),
    ensures
        r is Err <==> json_stream_first(chars@.skip(start as int)) is None,
        r matches Ok(None) ==> json_stream_first(chars@.skip(start as int)) == Some(
            None::<(Seq<char>, nat)>,
        ),
        r matches Ok(Some(v)) ==> json_stream_first(chars@.skip(start as int)) == Some(
            Some((v.0@, v.1 as nat)),
        ) && v.1 <= chars@.len() - start && json_shape_of(v.0@) is Some,
{
    let text: String = chars[start..].iter().collect();
    let mut stream = serde_json::Deserializer::from_str(&text).into_iter::<Value>();
    match stream.next() {
        None => Ok(None),
        Some(Err(e)) => Err(e),
        Some(Ok(v)) => Ok(Some((v.to_string(), text[..stream.byte_offset()].chars().count()))),
    }
}

/// `serde_json::from_str::<Value>` and `Value::pointer`, the selected value
/// printed with `Display`. The result is the name `json_pointer_target`.
#[verifier::external_body]
pub(crate) fn json_pointer(text: &str, pointer: &str) -> (r: Option<String>)
    ensures
        opt_string_view(r) == json_pointer_target(text@, pointer@),
        r matches Some(t) ==> json_shape_of(t@) is Some,
{
    serde_json::from_str::<Value>(text).ok()?.pointer(pointer).map(Value::to_string)
}

/// A `Value::String` printed with `Display`: the JSON literal of `s`, which
/// serde_json's compact formatter escapes by its table `ESCAPE`.
#[verifier::external_body]
pub(crate) fn json_quote(s: &str) -> (r: String)
    ensures
        r@ == json_string_literal(s@),
{
    Value::String(s.to_owned()).to_string()
}

/// A serde_json error with a message of the library's own, made by
/// `serde::de::Error::custom`, for a JSON value that parsed but does not have
/// the shape that the caller reads. Nothing is stated of the error.
#[verifier::external_body]
pub(crate) fn json_custom_error(message: &str) -> serde_json::Error {
    <serde_json::Error as serde::de::Error>::custom(message)
}

/// `serde_json::from_value::<String>` of the value that `text` holds, its
/// result dropped: serde_json's own error where the value is not a string.
/// Nothing is stated of the error.
#[verifier::external_body]
pub(crate) fn serde_decode_string(text: &str) -> Result<(), serde_json::Error> {
    serde_json::from_str::<Value>(text).and_then(serde_json::from_value::<String>).map(|_| ())
}

/// `serde_json::from_value::<bool>` of the value that `text` holds, its
/// result dropped. Nothing is stated of the error.
#[verifier::external_body]
pub(crate) fn serde_decode_bool(text: &str) -> Result<(), serde_json::Error> {
    serde_json::from_str::<Value>(text).and_then(serde_json::from_value::<bool>).map(|_| ())
}

/// `serde_json::from_value::<i64>` of the value that `text` holds, its
/// result dropped. Nothing is stated of the error.
#[verifier::external_body]
pub(crate) fn serde_decode_i64(text: &str) -> Result<(), serde_json::Error> {
    serde_json::from_str::<Value>(text).and_then(serde_json::from_value::<i64>).map(|_| ())
}

/// `serde_json::from_value::<i32>` of the value that `text` holds, its
/// result dropped. Nothing is stated of the error.
#[verifier::external_body]
pub(crate) fn serde_decode_i32(text: &str) -> Result<(), serde_json::Error> {
    serde_json::from_str::<Value>(text).and_then(serde_json::from_value::<i32>).map(|_| ())
}

/// `serde_json::from_value::<u32>` of the value that `text` holds, its
/// result dropped. Nothing is stated of the error.
#[verifier::external_body]
pub(crate) fn serde_decode_u32(text: &str) -> Result<(), serde_json::Error> {
    serde_json::from_str::<Value>(text).and_then(serde_json::from_value::<u32>).map(|_| ())
}

/// `serde_json::from_value` of the value that `text` holds as a sequence of
/// anything (`Vec<IgnoredAny>`), its result dropped: serde_json's own error
/// where the value is not an array. Nothing is stated of the error.
#[verifier::external_body]
pub(crate) fn serde_decode_sequence(text: &str) -> Result<(), serde_json::Error> {
    serde_json::from_str::<Value>(text).and_then(serde_json::from_value::<Vec<serde::de::IgnoredAny>>).map(|_| ())
}

/// serde_json's `Display` message for a parse error. Nothing is stated of it.
#[verifier::external_body]
pub(crate) fn json_error_message(e: &serde_json::Error) -> String {
    e.to_string()
}

/// The value of member `key` of an object, the first entry with that key.
pub open spec fn member_of(members: Seq<(Seq<char>, Seq<char>)>, key: Seq<char>) -> Option<Seq<char>>
    decreases members.len(),
{
    if members.len() == 0 {
        None
    } else if members[0].0 == key {
        Some(members[0].1)
    } else {
        member_of(members.drop_first(), key)
    }
}

/// Looks up member `key` of an object's members.
pub fn find_member(members: &Vec<(String, String)>, key: &str) -> (r: Option<String>)
    ensures
        opt_string_view(r) == member_of(members@.map_values(|m: (String, String)| (m.0@, m.1@)), key@),
{
    let ghost view = members@.map_values(|m: (String, String)| (m.0@, m.1@));
    let mut i: usize = 0;
    assert(view.skip(0) =~= view);
    while i < members.len()
        invariant
            0 <= i <= members.len(),
            view == members@.map_values(|m: (String, String)| (m.0@, m.1@)),
            member_of(view, key@) == member_of(view.skip(i as int), key@),
        decreases members.len() - i,
    {
        assert(view.skip(i as int).drop_first() =~= view.skip(i + 1));
        if str_eq(members[i].0.as_str(), key) {
            return Some(members[i].1.clone());
        }
        i += 1;
    }
    assert(view.skip(i as int) =~= Seq::<(Seq<char>, Seq<char>)>::empty());
    None
}

/// Equality of two string slices, character by character.
pub(crate) fn str_eq(a: &str, b: &str) -> (r: bool)
    ensures
        r == (a@ == b@),
{
    let x = crate::text::str_chars(a);
    let y = crate::text::str_chars(b);
    if x.len() != y.len() {
        return false;
    }
    let mut i: usize = 0;
    while i < x.len()
        invariant
            x@ == a@,
            y@ == b@,
            x@.len() == y@.len(),
            0 <= i <= x@.len(),
            forall|k: int| 0 <= k < i ==> x@[k] == y@[k],
        decreases x@.len() - i,
    {
        if x[i] != y[i] {
            return false;
        }
        i += 1;
    }
    assert(x@ =~= y@);
    true
}

} // verus!
