//! Character-level helpers: Unicode white space, prefixes, and the decimal
//! and hexadecimal forms of integers.
use vstd::prelude::*;

verus! {

/// The Unicode `White_Space` property, as `char::is_whitespace` documents it.
pub open spec fn is_white_space(c: char) -> bool {
    let u = c as u32;
    ||| 0x09 <= u <= 0x0D
    ||| u == 0x20
    ||| u == 0x85
    ||| u == 0xA0
    ||| u == 0x1680
    ||| 0x2000 <= u <= 0x200A
    ||| u == 0x2028
    ||| u == 0x2029
    ||| u == 0x202F
    ||| u == 0x205F
    ||| u == 0x3000
}

/// Whether `c` is Unicode white space.
pub fn char_is_whitespace(c: char) -> (r: bool)
    ensures
        r == is_white_space(c),
{
    let u = c as u32;
    (0x09 <= u && u <= 0x0D) || u == 0x20 || u == 0x85 || u == 0xA0 || u == 0x1680 || (0x2000
        <= u && u <= 0x200A) || u == 0x2028 || u == 0x2029 || u == 0x202F || u == 0x205F || u
        == 0x3000
}

/// The first position at or after `i` that does not hold white space.
pub open spec fn skip_ws(s: Seq<char>, i: int) -> int
    decreases s.len() - i,
{
    if 0 <= i < s.len() && is_white_space(s[i]) {
        skip_ws(s, i + 1)
    } else {
        i
    }
}

pub proof fn lemma_skip_ws_bounds(s: Seq<char>, i: int)
    requires
        0 <= i <= s.len(),
    ensures
        i <= skip_ws(s, i) <= s.len(),
        skip_ws(s, i) < s.len() ==> !is_white_space(s[skip_ws(s, i)]),
        forall|k: int| i <= k < skip_ws(s, i) ==> is_white_space(#[trigger] s[k]),
    decreases s.len() - i,
{
    if i < s.len() && is_white_space(s[i]) {
        lemma_skip_ws_bounds(s, i + 1);
    }
}

/// Skips white space from position `i` on.
pub fn skip_whitespace(s: &Vec<char>, i: usize) -> (j: usize)
    requires
        i <= s@.len(),
    ensures
        j == skip_ws(s@, i as int),
        i <= j <= s@.len(),
{
    proof {
        lemma_skip_ws_bounds(s@, i as int);
    }
    let mut j = i;
    while j < s.len() && char_is_whitespace(s[j])
        invariant
            i <= j <= s@.len(),
            skip_ws(s@, j as int) == skip_ws(s@, i as int),
        decreases s@.len() - j,
    {
        j += 1;
    }
    j
}

/// `t` occurs in `s` at position `i`.
pub open spec fn occurs_at(s: Seq<char>, i: int, t: Seq<char>) -> bool {
    0 <= i && i + t.len() <= s.len() && s.subrange(i, i + t.len()) == t
}

/// Whether `t` occurs in `s` at position `i`.
pub fn chars_at(s: &Vec<char>, i: usize, t: &Vec<char>) -> (r: bool)
    ensures
        r == occurs_at(s@, i as int, t@),
{
    if i > s.len() || t.len() > s.len() - i {
        return false;
    }
    let mut k: usize = 0;
    while k < t.len()
        invariant
            i + t@.len() <= s@.len(),
            0 <= k <= t@.len(),
            forall|m: int| 0 <= m < k ==> s@[i + m] == t@[m],
            s@.len() == s.len(),
        decreases t@.len() - k,
    {
        assert(i + k < s.len());
        if s[i + k] != t[k] {
            assert(s@.subrange(i as int, i + t@.len())[k as int] != t@[k as int]);
            return false;
        }
        k += 1;
    }
    assert(s@.subrange(i as int, i + t@.len()) =~= t@);
    true
}

/// Whether `t` occurs anywhere in `s`.
pub open spec fn contains_text(s: Seq<char>, t: Seq<char>) -> bool {
    exists|i: int| occurs_at(s, i, t)
}

/// Whether `t` occurs anywhere in `s`.
pub fn find_text(s: &Vec<char>, t: &Vec<char>) -> (r: bool)
    ensures
        r == contains_text(s@, t@),
{
    let mut i: usize = 0;
    loop
        invariant
            0 <= i <= s@.len(),
            forall|k: int| 0 <= k < i ==> !occurs_at(s@, k, t@),
        decreases s@.len() - i,
    {
        if chars_at(s, i, t) {
            return true;
        }
        if i == s.len() {
            assert forall|k: int| !occurs_at(s@, k, t@) by {
                if 0 <= k && k + t@.len() <= s@.len() && k > i {
                    assert(false);
                }
            }
            return false;
        }
        i += 1;
    }
}

/// The decimal digits of `n`, most significant first, without sign.
pub open spec fn decimal_digits(n: nat) -> Seq<char>
    decreases n,
{
    if n < 10 {
        seq![digit_char(n)]
    } else {
        decimal_digits(n / 10).push(digit_char(n % 10))
    }
}

/// The ASCII digit for `d < 10`.
pub open spec fn digit_char(d: nat) -> char {
    (d + 48) as char
}

/// The decimal form of an unsigned integer.
pub fn u64_to_decimal(n: u64) -> (s: String)
    ensures
        s@ == decimal_digits(n as nat),
{
    let mut digits: Vec<char> = Vec::new();
    let mut m = n;
    // digits holds the low digits of n, least significant first
    while m >= 10
        invariant
            decimal_digits(n as nat) == decimal_digits(m as nat) + digits@.reverse(),
        decreases m,
    {
        let c = char_from_digit((m % 10) as u32);
        assert(decimal_digits(m as nat) == decimal_digits((m / 10) as nat).push(c));
        let ghost old_digits = digits@;
        digits.push(c);
        assert(digits@.reverse() =~= seq![c] + old_digits.reverse());
        m = m / 10;
    }
    let c = char_from_digit(m as u32);
    assert(decimal_digits(m as nat) == seq![c]);
    let ghost old_digits = digits@;
    digits.push(c);
    assert(digits@.reverse() =~= seq![c] + old_digits.reverse());
    chars_to_string_reversed(&digits)
}

pub fn char_from_digit(d: u32) -> (c: char)
    requires
        d < 10,
    ensures
        c == digit_char(d as nat),
{
    let r = (d + 48) as u8 as char;
    assert(r == ((d + 48) as char)) by {
        assert((d + 48) as u8 == d + 48);
    }
    r
}

/// A string of the characters of `chars` in reverse order.
#[verifier::external_body]
fn chars_to_string_reversed(chars: &Vec<char>) -> (s: String)
    ensures
        s@ == chars@.reverse(),
{
    chars.iter().rev().collect()
}

/// A string of the characters of `chars`.
#[verifier::external_body]
pub(crate) fn chars_to_string(chars: &[char]) -> (s: String)
    ensures
        s@ == chars@,
{
    chars.iter().collect()
}

/// The characters of a string slice.
#[verifier::external_body]
pub(crate) fn str_chars(s: &str) -> (r: Vec<char>)
    ensures
        r@ == s@,
{
    s.chars().collect()
}

} // verus!

verus! {

pub open spec fn is_digit(c: char) -> bool {
    '0' <= c <= '9'
}

/// The number that a string of decimal digits denotes.
pub open spec fn decimal_number(d: Seq<char>) -> nat
    decreases d.len(),
{
    if d.len() == 0 {
        0
    } else {
        decimal_number(d.drop_last()) * 10 + ((d.last() as u32) - 48) as nat
    }
}

pub open spec fn all_digits(d: Seq<char>) -> bool {
    forall|i: int| 0 <= i < d.len() ==> is_digit(#[trigger] d[i])
}

/// `str::parse::<u16>`: an optional `+`, then at least one decimal digit,
/// denoting at most 65535.
pub open spec fn parse_u16_spec(s: Seq<char>) -> Option<u16> {
    let digits = if s.len() > 0 && s[0] == '+' {
        s.drop_first()
    } else {
        s
    };
    if digits.len() > 0 && all_digits(digits) && decimal_number(digits) <= u16::MAX {
        Some(decimal_number(digits) as u16)
    } else {
        None
    }
}

/// `str::parse::<i64>`: an optional sign, then at least one decimal digit,
/// denoting a number that fits an `i64`.
pub open spec fn parse_i64_spec(s: Seq<char>) -> Option<int> {
    let negative = s.len() > 0 && s[0] == '-';
    let digits = if s.len() > 0 && (s[0] == '+' || s[0] == '-') {
        s.drop_first()
    } else {
        s
    };
    if digits.len() > 0 && all_digits(digits) {
        let v: int = if negative {
            -(decimal_number(digits) as int)
        } else {
            decimal_number(digits) as int
        };
        if i64::MIN <= v <= i64::MAX {
            Some(v)
        } else {
            None
        }
    } else {
        None
    }
}

proof fn lemma_decimal_number_push(d: Seq<char>, c: char)
    ensures
        decimal_number(d.push(c)) == decimal_number(d) * 10 + ((c as u32) - 48) as nat,
{
    assert(d.push(c).drop_last() =~= d);
}

pub proof fn lemma_decimal_number_monotone(d: Seq<char>, j: int)
    requires
        0 <= j <= d.len(),
        all_digits(d),
    ensures
        decimal_number(d) >= decimal_number(d.subrange(0, j)),
    decreases d.len() - j,
{
    if j < d.len() {
        lemma_decimal_number_monotone(d, j + 1);
        lemma_decimal_number_push(d.subrange(0, j), d[j]);
        assert(d.subrange(0, j).push(d[j]) =~= d.subrange(0, j + 1));
        let h = decimal_number(d.subrange(0, j));
        assert(h * 10 >= h) by (nonlinear_arith);
    } else {
        assert(d.subrange(0, j) =~= d);
    }
}

/// The decimal number of `s[from..to]`, capped at `cap`: the number itself
/// where it is below `cap`, else `cap`; `None` where the range is empty or
/// holds a non-digit.
pub fn capped_decimal(s: &Vec<char>, from: usize, to: usize, cap: u32) -> (r: Option<u32>)
    requires
        from <= to <= s@.len(),
        cap <= 100000,
    ensures
        r is Some <==> (to > from && all_digits(s@.subrange(from as int, to as int))),
        r matches Some(v) ==> (v < cap ==> v == decimal_number(s@.subrange(from as int, to as int))),
        r matches Some(v) ==> (v >= cap ==> v == cap && decimal_number(s@.subrange(from as int, to as int)) >= cap),
{
    if from == to {
        return None;
    }
    let mut value: u32 = 0;
    let mut i = from;
    while i < to
        invariant
            from <= i <= to <= s@.len(),
            cap <= 100000,
            all_digits(s@.subrange(from as int, i as int)),
            value <= cap,
            value < cap ==> value == decimal_number(s@.subrange(from as int, i as int)),
            value == cap ==> decimal_number(s@.subrange(from as int, i as int)) >= cap,
        decreases to - i,
    {
        let c = s[i];
        if !('0' <= c && c <= '9') {
            assert(!is_digit(s@.subrange(from as int, to as int)[i - from]));
            return None;
        }
        let digit = (c as u32) - 48;
        proof {
            lemma_decimal_number_push(s@.subrange(from as int, i as int), c);
            assert(s@.subrange(from as int, i as int).push(c) =~= s@.subrange(from as int, i + 1));
            let h = decimal_number(s@.subrange(from as int, i as int));
            assert(h * 10 >= h) by (nonlinear_arith);
        }
        if value < cap {
            let next = value * 10 + digit;
            value = if next < cap { next } else { cap };
        }
        i += 1;
        assert(all_digits(s@.subrange(from as int, i as int)));
    }
    Some(value)
}

} // verus!
