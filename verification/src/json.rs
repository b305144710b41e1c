//! Character-level text machinery shared by the request decoder and the
//! response encoder: whitespace skipping, literal matching, the JSON number
//! grammar, and JSON string escaping.

use vstd::prelude::*;

verus! {

/// JSON insignificant whitespace.
pub open spec fn is_ws_char(c: char) -> bool {
    c == ' ' || c == '\t' || c == '\n' || c == '\r'
}

/// ASCII decimal digit.
pub open spec fn is_digit_char(c: char) -> bool {
    48 <= c as int && c as int <= 57
}

/// Lower-case hexadecimal digit, as the ride-identifier format uses.
pub open spec fn is_hex_lower_char(c: char) -> bool {
    is_digit_char(c) || (97 <= c as int && c as int <= 102)
}

/// The first index at or after `i` that does not hold whitespace.
pub open spec fn spec_skip_ws(s: Seq<char>, i: int) -> int
    decreases s.len() - i,
{
    if 0 <= i && i < s.len() && is_ws_char(s[i]) {
        spec_skip_ws(s, i + 1)
    } else {
        i
    }
}

pub proof fn lemma_skip_ws_bounds(s: Seq<char>, i: int)
    requires
        0 <= i <= s.len(),
    ensures
        i <= spec_skip_ws(s, i) <= s.len(),
    decreases s.len() - i,
{
    if i < s.len() && is_ws_char(s[i]) {
        lemma_skip_ws_bounds(s, i + 1);
    }
}

/// The first index at or after `i` that does not hold a decimal digit.
pub open spec fn spec_digits_end(s: Seq<char>, i: int) -> int
    decreases s.len() - i,
{
    if 0 <= i && i < s.len() && is_digit_char(s[i]) {
        spec_digits_end(s, i + 1)
    } else {
        i
    }
}

pub proof fn lemma_digits_end_bounds(s: Seq<char>, i: int)
    requires
        0 <= i <= s.len(),
    ensures
        i <= spec_digits_end(s, i) <= s.len(),
    decreases s.len() - i,
{
    if i < s.len() && is_digit_char(s[i]) {
        lemma_digits_end_bounds(s, i + 1);
    }
}

/// `lit` occurs in `s` starting exactly at index `i`.
pub open spec fn has_at(s: Seq<char>, i: int, lit: Seq<char>) -> bool {
    0 <= i && i + lit.len() <= s.len() && s.subrange(i, i + lit.len() as int) == lit
}

/// Where a JSON number that starts at `i` ends (exclusive), with maximal
/// digit runs; `None` if no number of the JSON grammar starts at `i`.
/// Grammar: `-? (0 | [1-9][0-9]*) (\.[0-9]+)? ([eE][+-]?[0-9]+)?`.
pub open spec fn spec_number_end(s: Seq<char>, i: int) -> Option<int> {
    let a = if i < s.len() && s[i] == '-' {
        i + 1
    } else {
        i
    };
    if 0 <= a && a < s.len() && is_digit_char(s[a]) {
        let b = if s[a] == '0' {
            a + 1
        } else {
            spec_digits_end(s, a)
        };
        match spec_frac_end(s, b) {
            Option::None => Option::None,
            Option::Some(c) => spec_exp_end(s, c),
        }
    } else {
        Option::None
    }
}

/// End of the optional fraction part that starts at `b`.
pub open spec fn spec_frac_end(s: Seq<char>, b: int) -> Option<int> {
    if 0 <= b && b < s.len() && s[b] == '.' {
        if b + 1 < s.len() && is_digit_char(s[b + 1]) {
            Option::Some(spec_digits_end(s, b + 1))
        } else {
            Option::None
        }
    } else {
        Option::Some(b)
    }
}

/// End of the optional exponent part that starts at `c`.
pub open spec fn spec_exp_end(s: Seq<char>, c: int) -> Option<int> {
    if 0 <= c && c < s.len() && (s[c] == 'e' || s[c] == 'E') {
        let d = if c + 1 < s.len() && (s[c + 1] == '+' || s[c + 1] == '-') {
            c + 2
        } else {
            c + 1
        };
        if d < s.len() && is_digit_char(s[d]) {
            Option::Some(spec_digits_end(s, d))
        } else {
            Option::None
        }
    } else {
        Option::Some(c)
    }
}

/// The whole of `s` is one JSON number token.
pub open spec fn is_number_token(s: Seq<char>) -> bool {
    spec_number_end(s, 0) == Option::<int>::Some(s.len() as int)
}

pub proof fn lemma_number_end_bounds(s: Seq<char>, i: int)
    requires
        0 <= i <= s.len(),
        spec_number_end(s, i) is Some,
    ensures
        i <= spec_number_end(s, i)->Some_0 <= s.len(),
{
    let a = if i < s.len() && s[i] == '-' {
        i + 1
    } else {
        i
    };
    let b = if s[a] == '0' {
        a + 1
    } else {
        spec_digits_end(s, a)
    };
    lemma_digits_end_bounds(s, a);
    let c = spec_frac_end(s, b)->Some_0;
    if b < s.len() && s[b] == '.' {
        lemma_digits_end_bounds(s, b + 1);
    }
    if c < s.len() && (s[c] == 'e' || s[c] == 'E') {
        let d = if c + 1 < s.len() && (s[c + 1] == '+' || s[c + 1] == '-') {
            c + 2
        } else {
            c + 1
        };
        if d < s.len() && is_digit_char(s[d]) {
            lemma_digits_end_bounds(s, d);
        }
    }
}

/// A digit run of `s` that stays within `s.subrange(m, e)` is a digit run
/// of that subrange, shifted.
pub proof fn lemma_digits_end_sub(s: Seq<char>, m: int, e: int, i: int)
    requires
        0 <= m <= i <= e <= s.len(),
        spec_digits_end(s, i) <= e,
    ensures
        spec_digits_end(s.subrange(m, e), i - m) == spec_digits_end(s, i) - m,
    decreases e - i,
{
    let t = s.subrange(m, e);
    lemma_digits_end_bounds(s, i);
    if i < e && is_digit_char(s[i]) {
        lemma_digits_end_bounds(s, i + 1);
        lemma_digits_end_sub(s, m, e, i + 1);
    } else if i == e {
        assert(spec_digits_end(s, i) == i);
        assert(spec_digits_end(t, i - m) == i - m);
    } else {
        assert(!is_digit_char(t[i - m]));
    }
}

/// A digit run starting on a digit reaches past it.
pub proof fn lemma_digits_end_advances(s: Seq<char>, i: int)
    requires
        0 <= i < s.len(),
        is_digit_char(s[i]),
    ensures
        spec_digits_end(s, i) >= i + 1,
{
    lemma_digits_end_bounds(s, i + 1);
}

/// A number that `spec_number_end` accepts from `m` to `e` is, cut out as
/// `s.subrange(m, e)`, a whole JSON number token.
pub proof fn lemma_number_token_sub(s: Seq<char>, m: int, e: int)
    requires
        0 <= m <= s.len(),
        spec_number_end(s, m) == Option::<int>::Some(e),
    ensures
        m <= e <= s.len(),
        is_number_token(s.subrange(m, e)),
{
    lemma_number_end_bounds(s, m);
    let t = s.subrange(m, e);
    let a = if m < s.len() && s[m] == '-' {
        m + 1
    } else {
        m
    };
    assert(a < s.len() && is_digit_char(s[a]));
    let b = if s[a] == '0' {
        a + 1
    } else {
        spec_digits_end(s, a)
    };
    lemma_digits_end_bounds(s, a);
    let c = spec_frac_end(s, b)->Some_0;
    assert(spec_exp_end(s, c) == Option::<int>::Some(e));
    // bounds of the three parts
    if b < s.len() && s[b] == '.' {
        lemma_digits_end_bounds(s, b + 1);
    }
    assert(b <= c);
    if c < s.len() && (s[c] == 'e' || s[c] == 'E') {
        let d = if c + 1 < s.len() && (s[c + 1] == '+' || s[c + 1] == '-') {
            c + 2
        } else {
            c + 1
        };
        lemma_digits_end_bounds(s, d);
    }
    assert(c <= e);
    // the sign and the integer part, shifted
    assert(a < e) by {
        if s[a] != '0' {
            lemma_digits_end_advances(s, a);
            assert(spec_digits_end(s, a) > a);
        }
    }
    let at: int = if 0 < t.len() && t[0] == '-' {
        1
    } else {
        0
    };
    assert(at == a - m);
    assert(is_digit_char(t[a - m]));
    if s[a] != '0' {
        lemma_digits_end_sub(s, m, e, a);
    }
    let bt = if t[at] == '0' {
        at + 1
    } else {
        spec_digits_end(t, at)
    };
    assert(bt == b - m);
    // the fraction part, shifted
    if b < s.len() && s[b] == '.' {
        assert(b + 1 < s.len() && is_digit_char(s[b + 1]));
        assert(c == spec_digits_end(s, b + 1));
        lemma_digits_end_advances(s, b + 1);
        assert(c >= b + 2);
        lemma_digits_end_sub(s, m, e, b + 1);
        assert(spec_frac_end(t, bt) == Option::<int>::Some(c - m));
    } else {
        assert(c == b);
        if b < e {
            assert(t[b - m] != '.');
        }
        assert(spec_frac_end(t, bt) == Option::<int>::Some(c - m));
    }
    // the exponent part, shifted
    if c < s.len() && (s[c] == 'e' || s[c] == 'E') {
        let d = if c + 1 < s.len() && (s[c + 1] == '+' || s[c + 1] == '-') {
            c + 2
        } else {
            c + 1
        };
        assert(d < s.len() && is_digit_char(s[d]));
        assert(e == spec_digits_end(s, d));
        lemma_digits_end_advances(s, d);
        assert(e >= d + 1);
        let dt = if c - m + 1 < t.len() && (t[c - m + 1] == '+' || t[c - m + 1] == '-') {
            c - m + 2
        } else {
            c - m + 1
        };
        assert(dt == d - m);
        lemma_digits_end_sub(s, m, e, d);
        assert(spec_exp_end(t, c - m) == Option::<int>::Some(e - m));
    } else {
        assert(e == c);
        assert(c - m == t.len() || !(t[c - m] == 'e' || t[c - m] == 'E'));
        assert(spec_exp_end(t, c - m) == Option::<int>::Some(e - m));
    }
    assert(spec_number_end(t, 0) == Option::<int>::Some(t.len() as int));
}

/// True when `c` is JSON whitespace.
pub fn ws_char(c: char) -> (b: bool)
    ensures
        b == is_ws_char(c),
{
    c == ' ' || c == '\t' || c == '\n' || c == '\r'
}

/// True when `c` is an ASCII decimal digit.
pub fn digit_char(c: char) -> (b: bool)
    ensures
        b == is_digit_char(c),
{
    let u = c as u32;
    48 <= u && u <= 57
}

/// Advance past whitespace, from `i` to the first non-whitespace index.
pub fn skip_ws(v: &Vec<char>, i: usize) -> (r: usize)
    requires
        i <= v@.len(),
    ensures
        r == spec_skip_ws(v@, i as int),
        i <= r <= v@.len(),
{
    let mut j: usize = i;
    while j < v.len() && ws_char(v[j])
        invariant
            i <= j <= v@.len(),
            spec_skip_ws(v@, i as int) == spec_skip_ws(v@, j as int),
        decreases v@.len() - j,
    {
        j = j + 1;
    }
    j
}

/// Advance past decimal digits, from `i` to the first non-digit index.
pub fn skip_digits(v: &Vec<char>, i: usize) -> (r: usize)
    requires
        i <= v@.len(),
    ensures
        r == spec_digits_end(v@, i as int),
        i <= r <= v@.len(),
{
    let mut j: usize = i;
    while j < v.len() && digit_char(v[j])
        invariant
            i <= j <= v@.len(),
            spec_digits_end(v@, i as int) == spec_digits_end(v@, j as int),
        decreases v@.len() - j,
    {
        j = j + 1;
    }
    j
}

/// True when `lit` occurs in `v` starting exactly at `i`.
pub fn match_lit(v: &Vec<char>, i: usize, lit: &str) -> (b: bool)
    requires
        i <= v@.len(),
    ensures
        b == has_at(v@, i as int, lit@),
{
    let n = lit.unicode_len();
    if n > v.len() - i {
        assert(!has_at(v@, i as int, lit@));
        return false;
    }
    let mut k: usize = 0;
    while k < n
        invariant
            0 <= k <= n,
            i + n <= v@.len() <= usize::MAX,
            n == lit@.len(),
            forall|t: int| 0 <= t < k ==> v@[i + t] == lit@[t],
        decreases n - k,
    {
        let c = v[i + k];
        let d = lit.get_char(k);
        if c != d {
            assert(v@.subrange(i as int, i + lit@.len() as int)[k as int] != lit@[k as int]);
            return false;
        }
        k = k + 1;
    }
    assert(v@.subrange(i as int, i + lit@.len() as int) =~= lit@);
    true
}

/// The lower-case hexadecimal digit character for `n`.
pub open spec fn hex_digit_char(n: int) -> char {
    if n == 0 {
        '0'
    } else if n == 1 {
        '1'
    } else if n == 2 {
        '2'
    } else if n == 3 {
        '3'
    } else if n == 4 {
        '4'
    } else if n == 5 {
        '5'
    } else if n == 6 {
        '6'
    } else if n == 7 {
        '7'
    } else if n == 8 {
        '8'
    } else if n == 9 {
        '9'
    } else if n == 10 {
        'a'
    } else if n == 11 {
        'b'
    } else if n == 12 {
        'c'
    } else if n == 13 {
        'd'
    } else if n == 14 {
        'e'
    } else {
        'f'
    }
}

/// How one character reads inside a JSON string literal: quotes and
/// backslashes get a backslash escape, control characters a `\u00XX` escape,
/// everything else stands as it is.
pub open spec fn escape_char(c: char) -> Seq<char> {
    if c == '"' {
        seq!['\\', '"']
    } else if c == '\\' {
        seq!['\\', '\\']
    } else if (c as int) < 32 {
        seq!['\\', 'u', '0', '0', hex_digit_char((c as int) / 16), hex_digit_char((c as int) % 16)]
    } else {
        seq![c]
    }
}

/// `s` escaped character by character for use inside a JSON string literal.
pub open spec fn escape_seq(s: Seq<char>) -> Seq<char>
    decreases s.len(),
{
    if s.len() == 0 {
        Seq::empty()
    } else {
        escape_seq(s.drop_last()) + escape_char(s.last())
    }
}

/// Relies on `String::push`: appends exactly the one character.
#[verifier::external_body]
fn push_char(s: &mut String, c: char)
    ensures
        final(s)@ == old(s)@.push(c),
{
    s.push(c)
}

/// The lower-case hexadecimal digit character for `n`.
pub fn hex_digit(n: u32) -> (c: char)
    requires
        n < 16,
    ensures
        c == hex_digit_char(n as int),
{
    match n {
        0 => '0',
        1 => '1',
        2 => '2',
        3 => '3',
        4 => '4',
        5 => '5',
        6 => '6',
        7 => '7',
        8 => '8',
        9 => '9',
        10 => 'a',
        11 => 'b',
        12 => 'c',
        13 => 'd',
        14 => 'e',
        _ => 'f',
    }
}

/// Escape `s` for inclusion inside a JSON string literal.
pub fn escape_json(s: &str) -> (r: String)
    ensures
        r@ == escape_seq(s@),
{
    let n = s.unicode_len();
    let mut out = String::new();
    let mut k: usize = 0;
    while k < n
        invariant
            0 <= k <= n,
            n == s@.len(),
            out@ == escape_seq(s@.subrange(0, k as int)),
        decreases n - k,
    {
        let c = s.get_char(k);
        let u = c as u32;
        if c == '"' {
            push_char(&mut out, '\\');
            push_char(&mut out, '"');
        } else if c == '\\' {
            push_char(&mut out, '\\');
            push_char(&mut out, '\\');
        } else if u < 32 {
            push_char(&mut out, '\\');
            push_char(&mut out, 'u');
            push_char(&mut out, '0');
            push_char(&mut out, '0');
            push_char(&mut out, hex_digit(u / 16));
            push_char(&mut out, hex_digit(u % 16));
        } else {
            push_char(&mut out, c);
        }
        proof {
            let pre = s@.subrange(0, k as int);
            let cur = s@.subrange(0, k + 1);
            assert(cur.drop_last() =~= pre);
            assert(cur.last() == s@[k as int]);
            assert(out@ =~= escape_seq(pre) + escape_char(s@[k as int]));
        }
        k = k + 1;
    }
    proof {
        assert(s@.subrange(0, n as int) =~= s@);
    }
    out
}

/// Character-for-character string equality.
pub fn str_eq(a: &str, b: &str) -> (r: bool)
    ensures
        r == (a@ == b@),
{
    let n = a.unicode_len();
    let m = b.unicode_len();
    if n != m {
        assert(a@ != b@);
        return false;
    }
    let mut k: usize = 0;
    while k < n
        invariant
            0 <= k <= n,
            n == a@.len() && n == b@.len(),
            forall|t: int| 0 <= t < k ==> a@[t] == b@[t],
        decreases n - k,
    {
        if a.get_char(k) != b.get_char(k) {
            return false;
        }
        k = k + 1;
    }
    assert(a@ =~= b@);
    true
}

/// The characters of `s`, one per entry.
pub fn str_to_chars(s: &str) -> (v: Vec<char>)
    ensures
        v@ == s@,
{
    let n = s.unicode_len();
    let mut v: Vec<char> = Vec::new();
    let mut k: usize = 0;
    while k < n
        invariant
            0 <= k <= n,
            n == s@.len(),
            v@ == s@.subrange(0, k as int),
        decreases n - k,
    {
        v.push(s.get_char(k));
        proof {
            assert(v@ =~= s@.subrange(0, k + 1));
        }
        k = k + 1;
    }
    proof {
        assert(s@.subrange(0, n as int) =~= s@);
    }
    v
}

/// The characters of `v` from `from` (inclusive) to `to` (exclusive), as a
/// string.
pub fn copy_range(v: &Vec<char>, from: usize, to: usize) -> (r: String)
    requires
        from <= to <= v@.len(),
    ensures
        r@ == v@.subrange(from as int, to as int),
{
    let mut out = String::new();
    let mut k: usize = from;
    while k < to
        invariant
            from <= k <= to <= v@.len(),
            out@ == v@.subrange(from as int, k as int),
        decreases to - k,
    {
        push_char(&mut out, v[k]);
        proof {
            assert(out@ =~= v@.subrange(from as int, k + 1));
        }
        k = k + 1;
    }
    out
}

/// Scan one JSON number starting at `i`; `Some(end)` on success.
pub fn scan_number(v: &Vec<char>, i: usize) -> (r: Option<usize>)
    requires
        i <= v@.len(),
    ensures
        match r {
            Option::Some(j) => spec_number_end(v@, i as int) == Option::Some(j as int) && i <= j
                <= v@.len(),
            Option::None => spec_number_end(v@, i as int) is None,
        },
{
    let a: usize = if i < v.len() && v[i] == '-' {
        i + 1
    } else {
        i
    };
    if !(a < v.len() && digit_char(v[a])) {
        return Option::None;
    }
    let b: usize = if v[a] == '0' {
        a + 1
    } else {
        skip_digits(v, a)
    };
    let c: usize = if b < v.len() && v[b] == '.' {
        if b + 1 < v.len() && digit_char(v[b + 1]) {
            skip_digits(v, b + 1)
        } else {
            return Option::None;
        }
    } else {
        b
    };
    assert(spec_frac_end(v@, b as int) == Option::Some(c as int));
    if c < v.len() && (v[c] == 'e' || v[c] == 'E') {
        let d: usize = if c + 1 < v.len() && (v[c + 1] == '+' || v[c + 1] == '-') {
            c + 2
        } else {
            c + 1
        };
        if d < v.len() && digit_char(v[d]) {
            let e = skip_digits(v, d);
            assert(spec_exp_end(v@, c as int) == Option::Some(e as int));
            Option::Some(e)
        } else {
            Option::None
        }
    } else {
        assert(spec_exp_end(v@, c as int) == Option::Some(c as int));
        Option::Some(c)
    }
}

} // verus!
