//! Script boundaries in a page: where one inline script ends and the next
//! begins does not matter to the records, because the pushed chunks are
//! joined into one byte stream before any record is read.
use vstd::prelude::*;
use vstd::utf8::encode_utf8;
use crate::html::HtmlTokenView;
use crate::nextjs::document::{
    ScanState, ends_script, is_script_start, lemma_script_end, parse_tokens, read_script_element,
    scan_scripts, script_end, script_text,
};
use crate::nextjs::error::ParseErrorKind;
use crate::nextjs::transport::{lemma_encode_utf8_concat, read_script_spec};

verus! {

/// The tokens of a script element without attributes: `<script>`, the
/// tokens of its script data, `</script>`.
pub open spec fn script_tokens(body: Seq<HtmlTokenView>) -> Seq<HtmlTokenView> {
    seq![HtmlTokenView::StartTag { name: "script"@, attributes: Seq::empty() }] + body
        + seq![HtmlTokenView::EndTag { name: "script"@ }]
}

/// Tokens that are all characters, as script data is.
pub open spec fn all_chars(body: Seq<HtmlTokenView>) -> bool {
    forall|j: int| 0 <= j < body.len() ==> (#[trigger] body[j]) is Char
}

/// The text of character tokens.
pub open spec fn text_of(body: Seq<HtmlTokenView>) -> Seq<char> {
    script_text(body, 0, body.len() as int)
}

/// Every script element that starts in `t` also ends in `t`.
pub open spec fn scripts_closed(t: Seq<HtmlTokenView>) -> bool {
    forall|i: int| 0 <= i < t.len() && #[trigger] is_script_start(t[i]) ==> script_end(t, i + 1) < t.len()
}

/// The push statements of `text` all succeed and append exactly `more` to
/// the byte stream, whatever the stream held before.
pub open spec fn pushes_exactly(text: Seq<char>, more: Seq<u8>) -> bool {
    forall|b: Seq<u8>| #[trigger] read_script_spec(text, b) == Ok::<(Seq<u8>, bool), (ParseErrorKind, Seq<u8>)>((b + more, true))
}

proof fn lemma_script_end_prefix(u: Seq<HtmlTokenView>, v: Seq<HtmlTokenView>, k: int)
    requires
        0 <= k,
        script_end(u, k) < u.len(),
    ensures
        script_end(u + v, k) == script_end(u, k),
    decreases u.len() - k,
{
    if k < u.len() {
        assert((u + v)[k] == u[k]);
        if !ends_script(u[k]) {
            lemma_script_end_prefix(u, v, k + 1);
        }
    }
}

proof fn lemma_script_end_shift(u: Seq<HtmlTokenView>, v: Seq<HtmlTokenView>, k: int)
    requires
        0 <= k,
    ensures
        script_end(u + v, u.len() + k) == u.len() + script_end(v, k),
    decreases v.len() - k,
{
    if k < v.len() {
        assert((u + v)[u.len() + k] == v[k]);
        if !ends_script(v[k]) {
            lemma_script_end_shift(u, v, k + 1);
        }
    }
}

proof fn lemma_script_text_prefix(u: Seq<HtmlTokenView>, v: Seq<HtmlTokenView>, from: int, to: int)
    requires
        0 <= from,
        to <= u.len(),
    ensures
        script_text(u + v, from, to) == script_text(u, from, to),
    decreases to - from,
{
    if from < to {
        assert((u + v)[to - 1] == u[to - 1]);
        lemma_script_text_prefix(u, v, from, to - 1);
    }
}

proof fn lemma_script_text_shift(u: Seq<HtmlTokenView>, v: Seq<HtmlTokenView>, from: int, to: int)
    requires
        0 <= from,
        to <= v.len(),
    ensures
        script_text(u + v, u.len() + from, u.len() + to) == script_text(v, from, to),
    decreases to - from,
{
    if from < to {
        assert((u + v)[u.len() + to - 1] == v[to - 1]);
        lemma_script_text_shift(u, v, from, to - 1);
    }
}

proof fn lemma_scan_shift(u: Seq<HtmlTokenView>, v: Seq<HtmlTokenView>, i: int, st: ScanState)
    requires
        0 <= i,
    ensures
        scan_scripts(u + v, u.len() + i, st) == scan_scripts(v, i, st),
    decreases v.len() + 1 - i,
{
    if i < v.len() {
        assert((u + v)[u.len() + i] == v[i]);
        if is_script_start(v[i]) {
            lemma_script_end(v, i + 1);
            lemma_script_end_shift(u, v, i + 1);
            let end = script_end(v, i + 1);
            lemma_script_text_shift(u, v, i + 1, end);
            assert(u.len() + i + 1 == u.len() + (i + 1));
            match read_script_element(v[i]->attributes, script_text(v, i + 1, end), st) {
                Ok(next) => {
                    lemma_scan_shift(u, v, end + 1, next);
                    assert(u.len() + end + 1 == u.len() + (end + 1));
                },
                Err(_) => {},
            }
        } else {
            lemma_scan_shift(u, v, i + 1, st);
            assert(u.len() + i + 1 == u.len() + (i + 1));
        }
    }
}

proof fn lemma_scan_prefix(u: Seq<HtmlTokenView>, v: Seq<HtmlTokenView>, i: int, st: ScanState)
    requires
        scripts_closed(u),
        0 <= i <= u.len(),
    ensures
        scan_scripts(u + v, i, st) == match scan_scripts(u, i, st) {
            Ok(s) => scan_scripts(u + v, u.len() as int, s),
            Err(e) => Err(e),
        },
    decreases u.len() + 1 - i,
{
    if i < u.len() {
        assert((u + v)[i] == u[i]);
        if is_script_start(u[i]) {
            let end = script_end(u, i + 1);
            assert(end < u.len());
            lemma_script_end(u, i + 1);
            lemma_script_end_prefix(u, v, i + 1);
            lemma_script_text_prefix(u, v, i + 1, end);
            match read_script_element(u[i]->attributes, script_text(u, i + 1, end), st) {
                Ok(next) => {
                    lemma_scan_prefix(u, v, end + 1, next);
                },
                Err(_) => {},
            }
        } else {
            lemma_scan_prefix(u, v, i + 1, st);
        }
    }
}

/// Scanning tokens `u + v`, where every script of `u` ends within `u`, is
/// scanning `u` and then `v` from the state that `u` left.
pub proof fn lemma_scan_concatenates(u: Seq<HtmlTokenView>, v: Seq<HtmlTokenView>, st: ScanState)
    requires
        scripts_closed(u),
    ensures
        scan_scripts(u + v, 0, st) == match scan_scripts(u, 0, st) {
            Ok(s) => scan_scripts(v, 0, s),
            Err(e) => Err(e),
        },
{
    lemma_scan_prefix(u, v, 0, st);
    if let Ok(s) = scan_scripts(u, 0, st) {
        lemma_scan_shift(u, v, 0, s);
        assert(u.len() + 0 == u.len());
    }
}

/// A script element without attributes is closed, and scanning it reads its
/// text as one script.
pub proof fn lemma_script_tokens(body: Seq<HtmlTokenView>, st: ScanState)
    requires
        all_chars(body),
    ensures
        scripts_closed(script_tokens(body)),
        scan_scripts(script_tokens(body), 0, st) == read_script_element(Seq::empty(), text_of(body), st),
{
    let head = seq![HtmlTokenView::StartTag { name: "script"@, attributes: Seq::empty() }];
    let tail = seq![HtmlTokenView::EndTag { name: "script"@ }];
    let x = script_tokens(body);
    let n = body.len() as int;
    assert(x =~= head + (body + tail));
    assert(x.len() == n + 2);
    assert forall|j: int| 1 <= j <= n implies (#[trigger] x[j]) is Char by {
        assert(x[j] == body[j - 1]);
    }
    assert(x[n + 1] == HtmlTokenView::EndTag { name: "script"@ });
    lemma_script_end_chars(x, n, 1);
    lemma_script_text_shift(head, body + tail, 0, n);
    lemma_script_text_prefix(body, tail, 0, n);
    assert(script_text(x, 1, n + 1) == text_of(body));
    assert forall|i: int| 0 <= i < x.len() && #[trigger] is_script_start(x[i]) implies script_end(x, i + 1) < x.len() by {
        if i > 0 && i <= n {
            assert(x[i] is Char);
        }
    }
    assert(is_script_start(x[0]));
    match read_script_element(Seq::empty(), text_of(body), st) {
        Ok(next) => {
            assert(scan_scripts(x, n + 2, next) == Ok::<ScanState, ParseErrorKind>(next));
        },
        Err(_) => {},
    }
}

proof fn lemma_script_end_chars(x: Seq<HtmlTokenView>, n: int, k: int)
    requires
        x.len() == n + 2,
        forall|j: int| 1 <= j <= n ==> (#[trigger] x[j]) is Char,
        x[n + 1] == (HtmlTokenView::EndTag { name: "script"@ }),
        1 <= k <= n + 1,
    ensures
        script_end(x, k) == n + 1,
    decreases n + 1 - k,
{
    if k <= n {
        assert(x[k] is Char);
        lemma_script_end_chars(x, n, k + 1);
    }
}

/// Where the text of one inline script is split over two scripts, at any
/// character, the page reads the same: the hydration data, or the error, of
/// a page is unchanged when a script that pushes the text `x + y` is
/// replaced by one that pushes `x` followed by one that pushes `y`. The
/// scripts before must each end before the replaced one starts.
pub proof fn lemma_script_boundaries_keep_the_page(
    before: Seq<HtmlTokenView>,
    after: Seq<HtmlTokenView>,
    whole: Seq<HtmlTokenView>,
    first: Seq<HtmlTokenView>,
    second: Seq<HtmlTokenView>,
    x: Seq<char>,
    y: Seq<char>,
)
    requires
        scripts_closed(before),
        all_chars(whole),
        all_chars(first),
        all_chars(second),
        pushes_exactly(text_of(whole), encode_utf8(x + y)),
        pushes_exactly(text_of(first), encode_utf8(x)),
        pushes_exactly(text_of(second), encode_utf8(y)),
    ensures
        parse_tokens(before + script_tokens(whole) + after) == parse_tokens(
            before + script_tokens(first) + script_tokens(second) + after,
        ),
{
    let init = ScanState { next_data: None, bytes: Seq::empty(), has_flight: false };
    let t1 = before + script_tokens(whole) + after;
    let t2 = before + script_tokens(first) + script_tokens(second) + after;
    assert(t1 =~= before + (script_tokens(whole) + after));
    assert(t2 =~= before + (script_tokens(first) + (script_tokens(second) + after)));
    lemma_scan_concatenates(before, script_tokens(whole) + after, init);
    lemma_scan_concatenates(before, script_tokens(first) + (script_tokens(second) + after), init);
    lemma_encode_utf8_concat(x, y);
    if let Ok(s) = scan_scripts(before, 0, init) {
        let sw = ScanState { bytes: s.bytes + encode_utf8(x + y), has_flight: true, ..s };
        let s1 = ScanState { bytes: s.bytes + encode_utf8(x), has_flight: true, ..s };
        let s2 = ScanState { bytes: s1.bytes + encode_utf8(y), has_flight: true, ..s1 };
        assert(read_script_spec(text_of(whole), s.bytes) == Ok::<(Seq<u8>, bool), (ParseErrorKind, Seq<u8>)>((s.bytes + encode_utf8(x + y), true)));
        assert(read_script_spec(text_of(first), s.bytes) == Ok::<(Seq<u8>, bool), (ParseErrorKind, Seq<u8>)>((s.bytes + encode_utf8(x), true)));
        assert(read_script_spec(text_of(second), s1.bytes) == Ok::<(Seq<u8>, bool), (ParseErrorKind, Seq<u8>)>((s1.bytes + encode_utf8(y), true)));
        lemma_script_tokens(whole, s);
        lemma_script_tokens(first, s);
        lemma_script_tokens(second, s1);
        lemma_scan_concatenates(script_tokens(whole), after, s);
        lemma_scan_concatenates(script_tokens(first), script_tokens(second) + after, s);
        lemma_scan_concatenates(script_tokens(second), after, s1);
        assert(s2.bytes =~= sw.bytes);
        assert(s2 == sw);
    }
}

} // verus!
