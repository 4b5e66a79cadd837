//! The schedule fields of YourAnimes records: the broadcast weekday, given
//! as a number or a numeric string, and the broadcast time inside a
//! `"YYYY-MM-DD hh:mm"` date text.
use vstd::prelude::*;
use crate::json::{JsonShape, JsonShapeView, json_shape, json_shape_of};
use crate::minute::Minute;
use crate::text::{capped_decimal, is_white_space, parse_i64_spec, parse_u16_spec, skip_whitespace, skip_ws, str_chars, char_is_whitespace};
use crate::weekday::{Weekday, weekday_from_sunday};

verus! {

/// The day number of a `dayOfWeek` value: a JSON integer, or a string that
/// parses as an `i64`.
pub open spec fn day_number(text: Seq<char>) -> Option<int> {
    match json_shape_of(text) {
        Some(JsonShapeView::Number { signed: Some(v), .. }) => Some(v as int),
        Some(JsonShapeView::Str(s)) => parse_i64_spec(s),
        _ => None,
    }
}

/// The weekday of a `dayOfWeek` value: 0 is Sunday and 6 is Saturday; any
/// other value means the day is not known.
pub open spec fn weekday_of_value(text: Seq<char>) -> Option<Weekday> {
    match day_number(text) {
        Some(n) => if 0 <= n <= 6 {
            Some(weekday_from_sunday(n))
        } else {
            None
        },
        None => None,
    }
}

/// The day number of a numeric string, where it is in `0..=6`.
fn small_day_number(s: &Vec<char>) -> (r: Option<u32>)
    ensures
        r matches Some(v) ==> v <= 6 && parse_i64_spec(s@) == Some(v as int),
        r is None ==> !(parse_i64_spec(s@) matches Some(n) && 0 <= n <= 6),
{
    let negative = s.len() > 0 && s[0] == '-';
    let start: usize = if s.len() > 0 && (s[0] == '+' || s[0] == '-') { 1 } else { 0 };
    let ghost digits = s@.subrange(start as int, s@.len() as int);
    assert(digits =~= if s@.len() > 0 && (s@[0] == '+' || s@[0] == '-') { s@.drop_first() } else { s@ });
    match capped_decimal(s, start, s.len(), 7) {
        None => None,
        Some(v) => {
            if v >= 7 {
                None
            } else if negative {
                if v == 0 { Some(0) } else { None }
            } else {
                Some(v)
            }
        },
    }
}

/// Reads a `dayOfWeek` value; it never fails, an unusable value meaning
/// that the day is not known.
pub fn weekday_from_value(text: &str) -> (r: Option<Weekday>)
    ensures
        r == weekday_of_value(text@),
{
    let n: Option<u32> = match json_shape(text) {
        Some(JsonShape::Number { signed: Some(v), .. }) => if 0 <= v && v <= 6 { Some(v as u32) } else { None },
        Some(JsonShape::Str(s)) => small_day_number(&str_chars(s.as_str())),
        _ => None,
    };
    match n {
        Some(v) => Some(Weekday::from_days_from_sunday(v)),
        None => None,
    }
}

/// The first position at or after `i` that holds white space.
pub open spec fn word_end(s: Seq<char>, i: int) -> int
    decreases s.len() - i,
{
    if 0 <= i < s.len() && !is_white_space(s[i]) {
        word_end(s, i + 1)
    } else {
        i
    }
}

pub proof fn lemma_word_end_bounds(s: Seq<char>, i: int)
    requires
        0 <= i <= s.len(),
    ensures
        i <= word_end(s, i) <= s.len(),
    decreases s.len() - i,
{
    if i < s.len() && !is_white_space(s[i]) {
        lemma_word_end_bounds(s, i + 1);
    }
}

/// The second word of a text whose words are separated by white space.
pub open spec fn second_word(s: Seq<char>) -> Option<Seq<char>> {
    let a = skip_ws(s, 0);
    if a >= s.len() {
        None
    } else {
        let c = skip_ws(s, word_end(s, a));
        if c >= s.len() {
            None
        } else {
            Some(s.subrange(c, word_end(s, c)))
        }
    }
}

/// The first position at or after `from` that holds `x`, else the length.
pub open spec fn index_or_end(s: Seq<char>, from: int, x: char) -> int
    decreases s.len() - from,
{
    if !(0 <= from < s.len()) {
        s.len() as int
    } else if s[from] == x {
        from
    } else {
        index_or_end(s, from + 1, x)
    }
}

pub proof fn lemma_index_or_end_bounds(s: Seq<char>, from: int, x: char)
    requires
        0 <= from <= s.len(),
    ensures
        from <= index_or_end(s, from, x) <= s.len(),
        index_or_end(s, from, x) < s.len() ==> s[index_or_end(s, from, x)] == x,
    decreases s.len() - from,
{
    if from < s.len() && s[from] != x {
        lemma_index_or_end_bounds(s, from + 1, x);
    }
}

/// The first two `:`-separated parts of `t`, where it holds a `:`.
pub open spec fn first_two_parts(t: Seq<char>) -> Option<(Seq<char>, Seq<char>)> {
    let i = index_or_end(t, 0, ':');
    if i >= t.len() {
        None
    } else {
        Some((t.subrange(0, i), t.subrange(i + 1, index_or_end(t, i + 1, ':'))))
    }
}

/// The minute of the day that a `date` value gives: `Some(None)` where the
/// value holds no time, `None` where the time is malformed or out of range.
pub open spec fn time_of_value(text: Seq<char>) -> Option<Option<nat>> {
    match json_shape_of(text) {
        Some(JsonShapeView::Str(raw)) => match second_word(raw) {
            None => Some(None),
            Some(time) => match first_two_parts(time) {
                None => Some(None),
                Some((h, m)) => match (parse_u16_spec(h), parse_u16_spec(m)) {
                    (Some(hour), Some(minute)) => if hour <= 23 && minute <= 59 {
                        Some(Some((hour * 60 + minute) as nat))
                    } else {
                        None
                    },
                    _ => None,
                },
            },
        },
        _ => Some(None),
    }
}

fn word_end_exec(s: &Vec<char>, i: usize) -> (j: usize)
    requires
        i <= s@.len(),
    ensures
        j == word_end(s@, i as int),
        i <= j <= s@.len(),
{
    proof {
        lemma_word_end_bounds(s@, i as int);
    }
    let mut j = i;
    while j < s.len() && !char_is_whitespace(s[j])
        invariant
            i <= j <= s@.len(),
            word_end(s@, j as int) == word_end(s@, i as int),
        decreases s@.len() - j,
    {
        j += 1;
    }
    j
}

fn index_or_end_exec(s: &Vec<char>, from: usize, x: char) -> (j: usize)
    requires
        from <= s@.len(),
    ensures
        j == index_or_end(s@, from as int, x),
        from <= j <= s@.len(),
{
    proof {
        lemma_index_or_end_bounds(s@, from as int, x);
    }
    let mut j = from;
    while j < s.len() && s[j] != x
        invariant
            from <= j <= s@.len(),
            index_or_end(s@, j as int, x) == index_or_end(s@, from as int, x),
        decreases s@.len() - j,
    {
        j += 1;
    }
    j
}

fn sub_chars(s: &Vec<char>, from: usize, to: usize) -> (r: Vec<char>)
    requires
        from <= to <= s@.len(),
    ensures
        r@ == s@.subrange(from as int, to as int),
{
    let mut r: Vec<char> = Vec::new();
    let mut i = from;
    while i < to
        invariant
            from <= i <= to <= s@.len(),
            r@ == s@.subrange(from as int, i as int),
        decreases to - i,
    {
        r.push(s[i]);
        i += 1;
        assert(r@ =~= s@.subrange(from as int, i as int));
    }
    r
}

/// `str::parse::<u16>` of `s[from..to]`.
fn parse_u16(s: &Vec<char>, from: usize, to: usize) -> (r: Option<u16>)
    requires
        from <= to <= s@.len(),
    ensures
        r == parse_u16_spec(s@.subrange(from as int, to as int)),
{
    let ghost t = s@.subrange(from as int, to as int);
    let start = if from < to && s[from] == '+' { from + 1 } else { from };
    assert(s@.subrange(start as int, to as int) =~= if t.len() > 0 && t[0] == '+' { t.drop_first() } else { t });
    match capped_decimal(s, start, to, 65536) {
        Some(v) if v < 65536 => Some(v as u16),
        _ => None,
    }
}

/// Reads the broadcast minute of a `date` value such as `"2026-07-06 00:30"`.
/// A value that is not a string, or holds no time, gives `Some(None)`; a
/// time that does not parse, or is past 23:59, gives `None`.
pub fn time_from_value(text: &str) -> (r: Option<Option<Minute>>)
    ensures
        r is None <==> time_of_value(text@) is None,
        r matches Some(None) ==> time_of_value(text@) == Some(None::<nat>),
        r matches Some(Some(m)) ==> time_of_value(text@) == Some(Some(m@)),
{
    let raw = match json_shape(text) {
        Some(JsonShape::Str(raw)) => str_chars(raw.as_str()),
        _ => return Some(None),
    };
    let a = skip_whitespace(&raw, 0);
    if a >= raw.len() {
        return Some(None);
    }
    let b = word_end_exec(&raw, a);
    let c = skip_whitespace(&raw, b);
    if c >= raw.len() {
        return Some(None);
    }
    let d = word_end_exec(&raw, c);
    let time = sub_chars(&raw, c, d);
    let i = index_or_end_exec(&time, 0, ':');
    if i >= time.len() {
        return Some(None);
    }
    let j = index_or_end_exec(&time, i + 1, ':');
    assert(time@.subrange(0, i as int) == time@.subrange(0, i as int));
    let hour = match parse_u16(&time, 0, i) {
        Some(h) => h,
        None => return None,
    };
    let minute = match parse_u16(&time, i + 1, j) {
        Some(m) => m,
        None => return None,
    };
    if hour > 23 || minute > 59 {
        return None;
    }
    match Minute::new(hour * 60 + minute) {
        Some(m) => Some(Some(m)),
        None => None,
    }
}

} // verus!
