//! The Flight transport: the `self.__next_f.push([...])` statements of inline
//! scripts, whose segments reset, extend or leave the byte stream of records.
use vstd::prelude::*;
use base64::Engine;
use vstd::utf8::encode_utf8;
use crate::json::{JsonShape, JsonShapeView, json_first_value, json_shape, json_shape_of, json_stream_first};
use crate::nextjs::error::{ParseError, ParseErrorKind};
use crate::text::{chars_at, lemma_skip_ws_bounds, occurs_at, skip_whitespace, skip_ws, str_chars};

verus! {

/// What base64's `STANDARD` engine decodes `text` to, or `None` where it is
/// not canonical padded base64.
pub uninterp spec fn base64_standard_decoded(text: Seq<char>) -> Option<Seq<u8>>;

/// `base64::engine::general_purpose::STANDARD.decode`; `None` for its
/// decode error. The result is the name `base64_standard_decoded`.
#[verifier::external_body]
pub(crate) fn base64_decode(text: &str) -> (r: Option<Vec<u8>>)
    ensures
        r matches Some(b) ==> base64_standard_decoded(text@) == Some(b@),
        r is None ==> base64_standard_decoded(text@) is None,
{
    base64::engine::general_purpose::STANDARD.decode(text).ok()
}

/// The tokens of a push statement: `self.__next_f.push(`, or, where the
/// statement opens with a parenthesis, `(self.__next_f = self.__next_f || []).push(`.
pub open spec fn push_tokens(long_form: bool) -> Seq<Seq<char>> {
    if long_form {
        seq![
            "("@, "self"@, "."@, "__next_f"@, "="@, "self"@, "."@, "__next_f"@, "||"@, "["@,
            "]"@, ")"@, "."@, "push"@, "("@,
        ]
    } else {
        seq!["self"@, "."@, "__next_f"@, "."@, "push"@, "("@]
    }
}

/// Matches `tokens` from position `i` on, white space allowed before each
/// token; the position after the last token and the white space after it.
pub open spec fn match_tokens(s: Seq<char>, i: int, tokens: Seq<Seq<char>>) -> Option<int>
    decreases tokens.len(),
{
    if tokens.len() == 0 {
        Some(skip_ws(s, i))
    } else {
        let j = skip_ws(s, i);
        if occurs_at(s, j, tokens[0]) {
            match_tokens(s, j + tokens[0].len(), tokens.drop_first())
        } else {
            None
        }
    }
}

/// Where the argument of a push statement that starts at `i` begins.
pub open spec fn push_argument_at(s: Seq<char>, i: int) -> Option<int> {
    match_tokens(s, i, push_tokens(0 <= i < s.len() && s[i] == '('))
}

/// What one transport segment does to the byte stream.
pub enum SegmentAction {
    /// `[0]`: the stream starts over.
    Reset,
    /// `[1, text]` or `[3, base64]`: the bytes are appended.
    Append(Seq<u8>),
    /// `[2, form state]`: nothing happens.
    Ignore,
}

/// The number a segment starts with, where its first element is a
/// non-negative integer.
pub open spec fn segment_kind(items: Seq<Seq<char>>) -> Option<u64> {
    if items.len() > 0 {
        match json_shape_of(items[0]) {
            Some(JsonShapeView::Number { unsigned, .. }) => unsigned,
            _ => None,
        }
    } else {
        None
    }
}

/// The action of the segment whose JSON text is `text`, or the reason it is refused.
pub open spec fn segment_action(text: Seq<char>) -> Result<SegmentAction, Seq<char>> {
    match json_shape_of(text) {
        Some(JsonShapeView::Array(items)) => {
            let kind = segment_kind(items);
            if kind == Some(0u64) && items.len() == 1 {
                Ok(SegmentAction::Reset)
            } else if (kind == Some(1u64) || kind == Some(3u64)) && items.len() == 2 {
                match json_shape_of(items[1]) {
                    Some(JsonShapeView::Str(payload)) => if kind == Some(1u64) {
                        Ok(SegmentAction::Append(encode_utf8(payload)))
                    } else {
                        match base64_standard_decoded(payload) {
                            Some(decoded) => Ok(SegmentAction::Append(decoded)),
                            None => Err("invalid base64 payload"@),
                        }
                    },
                    _ => Err("payload must be a string"@),
                }
            } else if kind == Some(2u64) && items.len() == 2 {
                Ok(SegmentAction::Ignore)
            } else {
                Err("unknown segment type or invalid segment shape"@)
            }
        },
        _ => Err("segment must be an array"@),
    }
}

/// The byte stream after a segment's action.
pub open spec fn apply_segment(bytes: Seq<u8>, action: SegmentAction) -> Seq<u8> {
    match action {
        SegmentAction::Reset => Seq::empty(),
        SegmentAction::Append(more) => bytes + more,
        SegmentAction::Ignore => bytes,
    }
}

pub proof fn lemma_match_tokens_progress(s: Seq<char>, i: int, tokens: Seq<Seq<char>>)
    requires
        0 <= i <= s.len(),
    ensures
        match_tokens(s, i, tokens) matches Some(j) ==> i <= j <= s.len(),
        match_tokens(s, i, tokens) matches Some(j) ==> (tokens.len() > 0 && tokens[0].len() > 0
            ==> i < j),
    decreases tokens.len(),
{
    lemma_skip_ws_bounds(s, i);
    if tokens.len() > 0 {
        let j = skip_ws(s, i);
        if occurs_at(s, j, tokens[0]) {
            lemma_match_tokens_progress(s, j + tokens[0].len(), tokens.drop_first());
        }
    } else {
    }
}

pub proof fn lemma_push_argument_progress(s: Seq<char>, i: int)
    requires
        0 <= i <= s.len(),
    ensures
        push_argument_at(s, i) matches Some(a) ==> i < a <= s.len(),
{
    reveal_strlit("(");
    reveal_strlit("self");
    lemma_match_tokens_progress(s, i, push_tokens(0 <= i < s.len() && s[i] == '('));
}

/// UTF-8 encoding maps concatenation of text to concatenation of bytes.
pub proof fn lemma_encode_utf8_concat(x: Seq<char>, y: Seq<char>)
    ensures
        encode_utf8(x + y) == encode_utf8(x) + encode_utf8(y),
    decreases x.len(),
{
    if x.len() == 0 {
        assert(x + y =~= y);
        assert(encode_utf8(x) =~= Seq::<u8>::empty());
        assert(encode_utf8(x) + encode_utf8(y) =~= encode_utf8(y));
    } else {
        assert((x + y).drop_first() =~= x.drop_first() + y);
        assert((x + y)[0] == x[0]);
        lemma_encode_utf8_concat(x.drop_first(), y);
        assert(encode_utf8(x + y) =~= encode_utf8(x) + encode_utf8(y));
    }
}

/// Splitting a text payload over two segments, at any character, appends the
/// same bytes to the stream as sending it in one segment.
pub proof fn lemma_text_segments_concatenate(bytes: Seq<u8>, x: Seq<char>, y: Seq<char>)
    ensures
        apply_segment(
            apply_segment(bytes, SegmentAction::Append(encode_utf8(x))),
            SegmentAction::Append(encode_utf8(y)),
        ) == apply_segment(bytes, SegmentAction::Append(encode_utf8(x + y))),
{
    lemma_encode_utf8_concat(x, y);
    assert(bytes + encode_utf8(x) + encode_utf8(y) =~= bytes + (encode_utf8(x) + encode_utf8(y)));
}

/// Binary segments concatenate their decoded bytes.
pub proof fn lemma_binary_segments_concatenate(bytes: Seq<u8>, x: Seq<u8>, y: Seq<u8>)
    ensures
        apply_segment(apply_segment(bytes, SegmentAction::Append(x)), SegmentAction::Append(y))
            == apply_segment(bytes, SegmentAction::Append(x + y)),
{
    assert(bytes + x + y =~= bytes + (x + y));
}

/// A bootstrap segment discards whatever the stream held before it.
pub proof fn lemma_reset_discards(before: Seq<u8>, other: Seq<u8>)
    ensures
        apply_segment(before, SegmentAction::Reset) == apply_segment(other, SegmentAction::Reset),
{
}

/// The outcome of the push statements from position `pos` on, with the
/// stream `bytes` so far and `found` telling whether a statement was seen:
/// the stream and whether any statement was found, or the first error with
/// the stream as the statements before the failing one left it.
pub open spec fn read_pushes(s: Seq<char>, pos: int, bytes: Seq<u8>, found: bool) -> Result<
    (Seq<u8>, bool),
    (ParseErrorKind, Seq<u8>),
>
    decreases s.len() - pos,
{
    if !(0 <= pos <= s.len()) {
        Ok((bytes, found))
    } else {
        match push_argument_at(s, pos) {
            None => Ok((bytes, found)),
            Some(a) => {
                proof {
                    lemma_push_argument_progress(s, pos);
                }
                match json_stream_first(s.skip(a)) {
                    None => Err((ParseErrorKind::Json("Next.js Flight segment"@), bytes)),
                    Some(None) => Err((ParseErrorKind::Transport("missing push argument"@), bytes)),
                    Some(Some((value, n))) => {
                        let j = skip_ws(s, a + n);
                        if a + n <= s.len() && j < s.len() && s[j] == ')' {
                            match segment_action(value) {
                                Err(reason) => Err((ParseErrorKind::Transport(reason), bytes)),
                                Ok(action) => {
                                    proof {
                                        lemma_skip_ws_bounds(s, a + n);
                                        lemma_skip_ws_bounds(s, j + 1);
                                    }
                                    let k = skip_ws(s, j + 1);
                                    let next = if k < s.len() && s[k] == ';' {
                                        proof {
                                            lemma_skip_ws_bounds(s, k + 1);
                                        }
                                        skip_ws(s, k + 1)
                                    } else {
                                        k
                                    };
                                    read_pushes(s, next, apply_segment(bytes, action), true)
                                },
                            }
                        } else {
                            Err((ParseErrorKind::Transport("missing closing push parenthesis"@), bytes))
                        }
                    },
                }
            },
        }
    }
}

/// The outcome of the push statements of a whole script.
pub open spec fn read_script_spec(s: Seq<char>, bytes: Seq<u8>) -> Result<(Seq<u8>, bool), (ParseErrorKind, Seq<u8>)> {
    read_pushes(s, skip_ws(s, 0), bytes, false)
}

fn token_list(long_form: bool) -> (r: Vec<&'static str>)
    ensures
        r@.map_values(|t: &str| t@) == push_tokens(long_form),
{
    if long_form {
        let r = vec![
            "(", "self", ".", "__next_f", "=", "self", ".", "__next_f", "||", "[", "]", ")", ".",
            "push", "(",
        ];
        assert(r@.map_values(|t: &str| t@) =~= push_tokens(long_form));
        r
    } else {
        let r = vec!["self", ".", "__next_f", ".", "push", "("];
        assert(r@.map_values(|t: &str| t@) =~= push_tokens(long_form));
        r
    }
}

/// Where the argument of a push statement that starts at `start` begins,
/// after the `(` and the white space that follows it.
pub fn push_argument(script: &Vec<char>, start: usize) -> (r: Option<usize>)
    requires
        start <= script@.len(),
    ensures
        r matches Some(a) ==> push_argument_at(script@, start as int) == Some(a as int),
        r is None ==> push_argument_at(script@, start as int) is None,
{
    let long_form = start < script.len() && script[start] == '(';
    let tokens = token_list(long_form);
    let ghost toks = tokens@.map_values(|t: &str| t@);
    let mut pos = start;
    let mut k: usize = 0;
    proof {
        assert(toks.skip(0) =~= toks);
    }
    while k < tokens.len()
        invariant
            toks == tokens@.map_values(|t: &str| t@),
            toks == push_tokens(long_form),
            0 <= k <= tokens@.len(),
            start <= pos <= script@.len(),
            push_argument_at(script@, start as int) == match_tokens(script@, pos as int, toks.skip(k as int)),
        decreases tokens@.len() - k,
    {
        let j = skip_whitespace(script, pos);
        let t = str_chars(tokens[k]);
        assert(toks.skip(k as int)[0] == t@);
        assert(toks.skip(k as int).drop_first() =~= toks.skip(k + 1));
        if !chars_at(script, j, &t) {
            return None;
        }
        assert(j + t@.len() <= script@.len());
        assert(script@.len() == script.len());
        pos = j + t.len();
        k += 1;
    }
    Some(skip_whitespace(script, pos))
}

fn append_bytes(dst: &mut Vec<u8>, src: &[u8])
    ensures
        final(dst)@ == old(dst)@ + src@,
{
    let mut i: usize = 0;
    while i < src.len()
        invariant
            0 <= i <= src@.len(),
            dst@ == old(dst)@ + src@.subrange(0, i as int),
        decreases src@.len() - i,
    {
        dst.push(src[i]);
        i += 1;
        assert(dst@ =~= old(dst)@ + src@.subrange(0, i as int));
    }
    assert(src@.subrange(0, src@.len() as int) =~= src@);
}

fn transport(reason: &'static str) -> (e: ParseError)
    ensures
        e == (ParseError::Transport { reason }),
{
    ParseError::Transport { reason }
}

/// Applies the segment whose JSON text is `text` to the byte stream.
fn apply_segment_text(text: &String, bytes: &mut Vec<u8>) -> (r: Result<(), ParseError>)
    requires
        json_shape_of(text@) is Some,
    ensures
        r is Ok <==> segment_action(text@) is Ok,
        r is Ok ==> final(bytes)@ == apply_segment(old(bytes)@, segment_action(text@)->Ok_0),
        r matches Err(e) ==> segment_action(text@) matches Err(reason) && e.kind()
            == ParseErrorKind::Transport(reason),
        r is Err ==> final(bytes)@ == old(bytes)@,
{
    let items = match json_shape(text.as_str()) {
        Some(JsonShape::Array(items)) => items,
        _ => return Err(transport("segment must be an array")),
    };
    let ghost views = items@.map_values(|t: String| t@);
    let kind: Option<u64> = if items.len() > 0 {
        assert(views[0] == items@[0]@);
        match json_shape(items[0].as_str()) {
            Some(JsonShape::Number { unsigned, .. }) => unsigned,
            _ => None,
        }
    } else {
        None
    };
    assert(kind == segment_kind(views));
    if kind == Some(0u64) && items.len() == 1 {
        bytes.clear();
        Ok(())
    } else if (kind == Some(1u64) || kind == Some(3u64)) && items.len() == 2 {
        assert(views[1] == items@[1]@);
        let payload = match json_shape(items[1].as_str()) {
            Some(JsonShape::Str(p)) => p,
            _ => return Err(transport("payload must be a string")),
        };
        if kind == Some(1u64) {
            append_bytes(bytes, payload.as_str().as_bytes());
        } else {
            match base64_decode(payload.as_str()) {
                Some(decoded) => append_bytes(bytes, decoded.as_slice()),
                None => return Err(transport("invalid base64 payload")),
            }
        }
        Ok(())
    } else if kind == Some(2u64) && items.len() == 2 {
        Ok(())
    } else {
        Err(transport("unknown segment type or invalid segment shape"))
    }
}

/// Reads the push statements of an inline script into the byte stream.
/// Returns whether the script holds a push statement at all. On an error the
/// stream holds what the statements before the failing one appended.
pub fn read_script(script: &Vec<char>, bytes: &mut Vec<u8>) -> (r: Result<bool, ParseError>)
    ensures
        r matches Ok(found) ==> read_script_spec(script@, old(bytes)@) == Ok::<
            (Seq<u8>, bool),
            (ParseErrorKind, Seq<u8>),
        >((final(bytes)@, found)),
        r matches Err(e) ==> read_script_spec(script@, old(bytes)@) == Err::<
            (Seq<u8>, bool),
            (ParseErrorKind, Seq<u8>),
        >((e.kind(), final(bytes)@)),
{
    let ghost s = script@;
    let ghost start_bytes = bytes@;
    let mut pos = skip_whitespace(script, 0);
    let mut found = false;
    loop
        invariant
            s == script@,
            start_bytes == old(bytes)@,
            s.len() == script.len(),
            0 <= pos <= s.len(),
            read_script_spec(s, start_bytes) == read_pushes(s, pos as int, bytes@, found),
        decreases s.len() - pos,
    {
        let a = match push_argument(script, pos) {
            None => return Ok(found),
            Some(a) => a,
        };
        proof {
            lemma_push_argument_progress(s, pos as int);
        }
        found = true;
        let (value, n) = match json_first_value(script, a) {
            Err(source) => return Err(ParseError::Json { context: "Next.js Flight segment", source }),
            Ok(None) => return Err(transport("missing push argument")),
            Ok(Some(v)) => v,
        };
        assert(a + n <= s.len());
        let j = skip_whitespace(script, a + n);
        if !(j < script.len() && script[j] == ')') {
            return Err(transport("missing closing push parenthesis"));
        }
        let ghost before = bytes@;
        apply_segment_text(&value, bytes)?;
        let k = skip_whitespace(script, j + 1);
        if k < script.len() && script[k] == ';' {
            pos = skip_whitespace(script, k + 1);
        } else {
            pos = k;
        }
        assert(read_pushes(s, pos as int, bytes@, found) == read_script_spec(s, start_bytes));
    }
}

} // verus!
