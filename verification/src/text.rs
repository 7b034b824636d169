//! Character-level text helpers shared by the parsers of this crate.
//!
//! Text is modelled as `Seq<char>`; the executable helpers work on `Vec<char>`
//! and are proved against the spec functions below.
use vstd::prelude::*;

verus! {

/// `char::is_whitespace`: the Unicode `White_Space` property.
pub open spec fn is_ws(c: char) -> bool {
    ||| c == '\t' || c == '\n' || c == '\u{0B}' || c == '\u{0C}' || c == '\r' || c == ' '
    ||| c == '\u{85}' || c == '\u{A0}' || c == '\u{1680}'
    ||| ('\u{2000}' <= c && c <= '\u{200A}')
    ||| c == '\u{2028}' || c == '\u{2029}' || c == '\u{202F}' || c == '\u{205F}'
    ||| c == '\u{3000}'
}

pub open spec fn is_digit(c: char) -> bool {
    '0' <= c && c <= '9'
}

pub open spec fn is_upper(c: char) -> bool {
    'A' <= c && c <= 'Z'
}

pub open spec fn is_lower(c: char) -> bool {
    'a' <= c && c <= 'z'
}

pub open spec fn is_hex(c: char) -> bool {
    is_digit(c) || ('a' <= c && c <= 'f') || ('A' <= c && c <= 'F')
}

pub open spec fn is_control(c: char) -> bool {
    (c as u32) < 0x20 || (0x7f <= (c as u32) && (c as u32) < 0xa0)
}

/// `char::to_ascii_lowercase`.
pub open spec fn lower_char(c: char) -> char {
    if is_upper(c) {
        ((c as u32) + 32) as char
    } else {
        c
    }
}

/// `char::to_ascii_uppercase`.
pub open spec fn upper_char(c: char) -> char {
    if is_lower(c) {
        ((c as u32) - 32) as char
    } else {
        c
    }
}

pub open spec fn lower(s: Seq<char>) -> Seq<char> {
    s.map_values(|c: char| lower_char(c))
}

pub open spec fn upper(s: Seq<char>) -> Seq<char> {
    s.map_values(|c: char| upper_char(c))
}

/// `str::eq_ignore_ascii_case`.
pub open spec fn eq_ignore_case(a: Seq<char>, b: Seq<char>) -> bool {
    lower(a) == lower(b)
}

pub open spec fn all_digits(s: Seq<char>) -> bool {
    forall|i: int| 0 <= i < s.len() ==> is_digit(#[trigger] s[i])
}

pub open spec fn all_hex(s: Seq<char>) -> bool {
    forall|i: int| 0 <= i < s.len() ==> is_hex(#[trigger] s[i])
}

pub open spec fn has_char(s: Seq<char>, c: char) -> bool {
    exists|i: int| 0 <= i < s.len() && s[i] == c
}

pub open spec fn starts_with(s: Seq<char>, p: Seq<char>) -> bool {
    p.len() <= s.len() && s.subrange(0, p.len() as int) == p
}

pub open spec fn ends_with(s: Seq<char>, p: Seq<char>) -> bool {
    p.len() <= s.len() && s.subrange(s.len() - p.len(), s.len() as int) == p
}

/// `s` with leading whitespace removed (`str::trim_start`).
pub open spec fn trim_start(s: Seq<char>) -> Seq<char>
    decreases s.len(),
{
    if s.len() > 0 && is_ws(s[0]) {
        trim_start(s.drop_first())
    } else {
        s
    }
}

/// `s` with trailing whitespace removed (`str::trim_end`).
pub open spec fn trim_end(s: Seq<char>) -> Seq<char>
    decreases s.len(),
{
    if s.len() > 0 && is_ws(s.last()) {
        trim_end(s.drop_last())
    } else {
        s
    }
}

/// `str::trim`.
pub open spec fn trim(s: Seq<char>) -> Seq<char> {
    trim_end(trim_start(s))
}

/// The pieces of `str::split` with a set of separator characters.
pub open spec fn split(s: Seq<char>, seps: Seq<char>) -> Seq<Seq<char>>
    decreases s.len(),
{
    if s.len() == 0 {
        seq![Seq::<char>::empty()]
    } else {
        let p = split(s.drop_last(), seps);
        if seps.contains(s.last()) {
            p.push(Seq::<char>::empty())
        } else {
            p.update(p.len() - 1, p.last().push(s.last()))
        }
    }
}

/// The text before the first separator: `s.split(seps).next()`.
pub open spec fn first_piece(s: Seq<char>, seps: Seq<char>) -> Seq<char> {
    split(s, seps)[0]
}

/// The pieces joined with one separator between neighbours.
pub open spec fn join(parts: Seq<Seq<char>>, sep: char) -> Seq<char>
    decreases parts.len(),
{
    if parts.len() == 0 {
        Seq::<char>::empty()
    } else if parts.len() == 1 {
        parts[0]
    } else {
        join(parts.drop_last(), sep).push(sep) + parts.last()
    }
}

pub open spec fn digit_value(c: char) -> nat {
    ((c as u32) - ('0' as u32)) as nat
}

/// The decimal value of a run of digits.
pub open spec fn digits_value(s: Seq<char>) -> nat
    decreases s.len(),
{
    if s.len() == 0 {
        0
    } else {
        digits_value(s.drop_last()) * 10 + digit_value(s.last())
    }
}

/// `str::parse` for an unsigned integer type whose largest value is `max`:
/// an optional `+`, then at least one ASCII digit, and a value not above `max`.
pub open spec fn parse_uint(s: Seq<char>, max: nat) -> Option<nat> {
    let t = if s.len() > 0 && s[0] == '+' {
        s.drop_first()
    } else {
        s
    };
    if t.len() > 0 && all_digits(t) && digits_value(t) <= max {
        Some(digits_value(t))
    } else {
        None
    }
}

/// Decimal rendering of a natural number, as `Display` for unsigned integers writes it.
pub open spec fn decimal(n: nat) -> Seq<char>
    decreases n,
{
    if n < 10 {
        seq![digit_char(n)]
    } else {
        decimal(n / 10).push(digit_char(n % 10))
    }
}

pub open spec fn digit_char(d: nat) -> char {
    ((d + ('0' as u32)) as u32) as char
}

/// Upper-case hexadecimal digit for a value below 16.
pub open spec fn hex_upper_char(d: nat) -> char {
    if d < 10 {
        digit_char(d)
    } else {
        ((d - 10 + ('A' as u32)) as u32) as char
    }
}

pub proof fn lemma_digits_value_monotone(s: Seq<char>, i: int, j: int)
    requires
        0 <= i <= j <= s.len(),
        all_digits(s),
    ensures
        digits_value(s.take(i)) <= digits_value(s.take(j)),
    decreases j - i,
{
    if i < j {
        lemma_digits_value_monotone(s, i, j - 1);
        assert(s.take(j).drop_last() == s.take(j - 1));
    }
}

proof fn lemma_trim_start_suffix(s: Seq<char>, i: int)
    requires
        0 <= i <= s.len(),
        forall|k: int| 0 <= k < i ==> is_ws(#[trigger] s[k]),
    ensures
        trim_start(s) == trim_start(s.subrange(i, s.len() as int)),
    decreases i,
{
    if i > 0 {
        assert(s.drop_first().subrange(i - 1, s.drop_first().len() as int) == s.subrange(
            i,
            s.len() as int,
        ));
        lemma_trim_start_suffix(s.drop_first(), i - 1);
    } else {
        assert(s.subrange(0, s.len() as int) == s);
    }
}

proof fn lemma_trim_end_prefix(s: Seq<char>, j: int)
    requires
        0 <= j <= s.len(),
        forall|k: int| j <= k < s.len() ==> is_ws(#[trigger] s[k]),
    ensures
        trim_end(s) == trim_end(s.subrange(0, j)),
    decreases s.len() - j,
{
    if j < s.len() {
        assert(s.drop_last().subrange(0, j) == s.subrange(0, j));
        lemma_trim_end_prefix(s.drop_last(), j);
    } else {
        assert(s.subrange(0, j) == s);
    }
}

/// Calls `String::push`, which appends one character; that is all it claims.
#[verifier::external_body]
pub(crate) fn push_char(s: &mut String, c: char)
    ensures
        final(s)@ == old(s)@.push(c),
{
    s.push(c)
}

/// The characters of `s`.
pub fn chars_of(s: &str) -> (v: Vec<char>)
    ensures
        v@ == s@,
{
    broadcast use vstd::string::group_string_axioms;

    let mut v: Vec<char> = Vec::new();
    for c in it: s.chars()
        invariant
            v@ == it.seq().take(it.index() as int),
    {
        v.push(c);
    }
    v
}

/// The characters of `v` from `lo` to `hi` as a `String`.
pub fn string_of(v: &Vec<char>, lo: usize, hi: usize) -> (s: String)
    requires
        lo <= hi <= v.len(),
    ensures
        s@ == v@.subrange(lo as int, hi as int),
{
    let mut s = String::new();
    let mut i = lo;
    while i < hi
        invariant
            lo <= i <= hi <= v.len(),
            s@ == v@.subrange(lo as int, i as int),
        decreases hi - i,
    {
        push_char(&mut s, v[i]);
        i = i + 1;
        assert(s@ == v@.subrange(lo as int, i as int));
    }
    s
}

/// All characters of `v` as a `String`.
pub fn string_of_all(v: &Vec<char>) -> (s: String)
    ensures
        s@ == v@,
{
    let s = string_of(v, 0, v.len());
    assert(v@.subrange(0, v@.len() as int) == v@);
    s
}

/// A `Vec` holding the characters of `v` from `lo` to `hi`.
pub fn slice_of(v: &Vec<char>, lo: usize, hi: usize) -> (r: Vec<char>)
    requires
        lo <= hi <= v.len(),
    ensures
        r@ == v@.subrange(lo as int, hi as int),
{
    let mut r: Vec<char> = Vec::new();
    let mut i = lo;
    while i < hi
        invariant
            lo <= i <= hi <= v.len(),
            r@ == v@.subrange(lo as int, i as int),
        decreases hi - i,
    {
        r.push(v[i]);
        i = i + 1;
        assert(r@ == v@.subrange(lo as int, i as int));
    }
    r
}

/// Appends the characters of `src` to `dst`.
pub fn append_chars(dst: &mut Vec<char>, src: &Vec<char>)
    ensures
        final(dst)@ == old(dst)@ + src@,
{
    let mut i: usize = 0;
    while i < src.len()
        invariant
            i <= src.len(),
            dst@ == old(dst)@ + src@.subrange(0, i as int),
        decreases src.len() - i,
    {
        dst.push(src[i]);
        i = i + 1;
        assert(dst@ == old(dst)@ + src@.subrange(0, i as int));
    }
    assert(src@.subrange(0, src@.len() as int) == src@);
}

/// Appends the characters of `src` to `dst`.
pub fn append_str(dst: &mut Vec<char>, src: &str)
    ensures
        final(dst)@ == old(dst)@ + src@,
{
    let c = chars_of(src);
    append_chars(dst, &c);
}

/// Whether `c` is whitespace in the sense of `char::is_whitespace`.
pub fn char_is_ws(c: char) -> (b: bool)
    ensures
        b == is_ws(c),
{
    c == '\t' || c == '\n' || c == '\u{0B}' || c == '\u{0C}' || c == '\r' || c == ' ' || c
        == '\u{85}' || c == '\u{A0}' || c == '\u{1680}' || ('\u{2000}' <= c && c <= '\u{200A}')
        || c == '\u{2028}' || c == '\u{2029}' || c == '\u{202F}' || c == '\u{205F}' || c
        == '\u{3000}'
}

pub fn char_is_digit(c: char) -> (b: bool)
    ensures
        b == is_digit(c),
{
    '0' <= c && c <= '9'
}

pub fn char_is_hex(c: char) -> (b: bool)
    ensures
        b == is_hex(c),
{
    ('0' <= c && c <= '9') || ('a' <= c && c <= 'f') || ('A' <= c && c <= 'F')
}

pub fn char_is_control(c: char) -> (b: bool)
    ensures
        b == is_control(c),
{
    (c as u32) < 0x20 || (0x7f <= (c as u32) && (c as u32) < 0xa0)
}

pub fn char_lower(c: char) -> (r: char)
    ensures
        r == lower_char(c),
{
    if 'A' <= c && c <= 'Z' {
        let code: u32 = (c as u32) + 32;
        assert(0x61 <= code <= 0x7a);
        char_from_ascii(code)
    } else {
        c
    }
}

pub fn char_upper(c: char) -> (r: char)
    ensures
        r == upper_char(c),
{
    if 'a' <= c && c <= 'z' {
        let code: u32 = (c as u32) - 32;
        char_from_ascii(code)
    } else {
        c
    }
}

/// The character with an ASCII code point.
pub fn char_from_ascii(code: u32) -> (c: char)
    requires
        code < 128,
    ensures
        c == code as char,
        c as u32 == code,
{
    let b: u8 = code as u8;
    b as char
}

/// The bounds of `v` with leading and trailing whitespace removed.
pub fn trim_bounds(v: &Vec<char>) -> (r: (usize, usize))
    ensures
        r.0 <= r.1 <= v.len(),
        v@.subrange(r.0 as int, r.1 as int) == trim(v@),
        r.0 == v.len() || !is_ws(v@[r.0 as int]),
{
    let mut lo: usize = 0;
    while lo < v.len() && char_is_ws(v[lo])
        invariant
            lo <= v.len(),
            forall|k: int| 0 <= k < lo ==> is_ws(#[trigger] v@[k]),
        decreases v.len() - lo,
    {
        lo = lo + 1;
    }
    proof {
        lemma_trim_start_suffix(v@, lo as int);
        let t = v@.subrange(lo as int, v@.len() as int);
        if t.len() > 0 {
            assert(t[0] == v@[lo as int]);
        }
        assert(trim_start(t) == t);
    }
    let mut hi: usize = v.len();
    while hi > lo && char_is_ws(v[hi - 1])
        invariant
            lo <= hi <= v.len(),
            forall|k: int| hi <= k < v.len() ==> is_ws(#[trigger] v@[k]),
        decreases hi,
    {
        hi = hi - 1;
    }
    proof {
        let t = v@.subrange(lo as int, v@.len() as int);
        assert forall|k: int| (hi - lo) <= k < t.len() implies is_ws(#[trigger] t[k]) by {
            assert(t[k] == v@[k + lo]);
        }
        lemma_trim_end_prefix(t, hi - lo);
        assert(t.subrange(0, hi - lo) == v@.subrange(lo as int, hi as int));
        let u = v@.subrange(lo as int, hi as int);
        if u.len() > 0 {
            assert(u.last() == v@[hi - 1]);
        }
        assert(trim_end(u) == u);
    }
    (lo, hi)
}

/// `str::trim`, as characters.
pub fn trimmed(v: &Vec<char>) -> (r: Vec<char>)
    ensures
        r@ == trim(v@),
{
    let (lo, hi) = trim_bounds(v);
    slice_of(v, lo, hi)
}

/// `str::trim`, as a `String`.
pub fn trim_str(s: &str) -> (r: String)
    ensures
        r@ == trim(s@),
{
    let v = chars_of(s);
    let (lo, hi) = trim_bounds(&v);
    string_of(&v, lo, hi)
}

/// `to_ascii_lowercase` on characters.
pub fn lower_vec(v: &Vec<char>) -> (r: Vec<char>)
    ensures
        r@ == lower(v@),
{
    let mut r: Vec<char> = Vec::new();
    let mut i: usize = 0;
    while i < v.len()
        invariant
            i <= v.len(),
            r@ == lower(v@.subrange(0, i as int)),
        decreases v.len() - i,
    {
        r.push(char_lower(v[i]));
        i = i + 1;
        assert(r@ == lower(v@.subrange(0, i as int)));
    }
    assert(v@.subrange(0, v@.len() as int) == v@);
    r
}

/// `to_ascii_uppercase` on characters.
pub fn upper_vec(v: &Vec<char>) -> (r: Vec<char>)
    ensures
        r@ == upper(v@),
{
    let mut r: Vec<char> = Vec::new();
    let mut i: usize = 0;
    while i < v.len()
        invariant
            i <= v.len(),
            r@ == upper(v@.subrange(0, i as int)),
        decreases v.len() - i,
    {
        r.push(char_upper(v[i]));
        i = i + 1;
        assert(r@ == upper(v@.subrange(0, i as int)));
    }
    assert(v@.subrange(0, v@.len() as int) == v@);
    r
}

/// Equality of two character sequences.
pub fn chars_eq(a: &Vec<char>, b: &Vec<char>) -> (r: bool)
    ensures
        r == (a@ == b@),
{
    if a.len() != b.len() {
        return false;
    }
    let mut i: usize = 0;
    while i < a.len()
        invariant
            i <= a.len() == b.len(),
            a@.subrange(0, i as int) == b@.subrange(0, i as int),
        decreases a.len() - i,
    {
        if a[i] != b[i] {
            assert(a@[i as int] != b@[i as int]);
            return false;
        }
        i = i + 1;
        assert(a@.subrange(0, i as int) == b@.subrange(0, i as int));
    }
    assert(a@.subrange(0, a@.len() as int) == a@);
    assert(b@.subrange(0, b@.len() as int) == b@);
    true
}

/// `str::eq_ignore_ascii_case` on characters.
pub fn chars_eq_ignore_case(a: &Vec<char>, b: &Vec<char>) -> (r: bool)
    ensures
        r == eq_ignore_case(a@, b@),
{
    let la = lower_vec(a);
    let lb = lower_vec(b);
    chars_eq(&la, &lb)
}

/// `str::eq_ignore_ascii_case`.
pub fn str_eq_ignore_case(a: &str, b: &str) -> (r: bool)
    ensures
        r == eq_ignore_case(a@, b@),
{
    let va = chars_of(a);
    let vb = chars_of(b);
    chars_eq_ignore_case(&va, &vb)
}

/// Equality of two strings.
pub fn str_eq(a: &str, b: &str) -> (r: bool)
    ensures
        r == (a@ == b@),
{
    let va = chars_of(a);
    let vb = chars_of(b);
    chars_eq(&va, &vb)
}

/// Whether `c` occurs in `v`.
pub fn contains_char(v: &Vec<char>, c: char) -> (r: bool)
    ensures
        r == v@.contains(c),
{
    let mut i: usize = 0;
    while i < v.len()
        invariant
            i <= v.len(),
            forall|k: int| 0 <= k < i ==> v@[k] != c,
        decreases v.len() - i,
    {
        if v[i] == c {
            assert(v@[i as int] == c);
            return true;
        }
        i = i + 1;
    }
    false
}

/// Whether every character of `v` is an ASCII digit.
pub fn vec_all_digits(v: &Vec<char>) -> (r: bool)
    ensures
        r == all_digits(v@),
{
    let mut i: usize = 0;
    while i < v.len()
        invariant
            i <= v.len(),
            forall|k: int| 0 <= k < i ==> is_digit(#[trigger] v@[k]),
        decreases v.len() - i,
    {
        if !char_is_digit(v[i]) {
            return false;
        }
        i = i + 1;
    }
    true
}

/// Whether every character of `v` is an ASCII hexadecimal digit.
pub fn vec_all_hex(v: &Vec<char>) -> (r: bool)
    ensures
        r == all_hex(v@),
{
    let mut i: usize = 0;
    while i < v.len()
        invariant
            i <= v.len(),
            forall|k: int| 0 <= k < i ==> is_hex(#[trigger] v@[k]),
        decreases v.len() - i,
    {
        if !char_is_hex(v[i]) {
            return false;
        }
        i = i + 1;
    }
    true
}

/// `str::split` with a set of separator characters.
pub fn split_vec(v: &Vec<char>, seps: &Vec<char>) -> (r: Vec<Vec<char>>)
    ensures
        r@.len() == split(v@, seps@).len(),
        forall|k: int| 0 <= k < r@.len() ==> (#[trigger] r@[k])@ == split(v@, seps@)[k],
{
    let mut parts: Vec<Vec<char>> = Vec::new();
    let mut cur: Vec<char> = Vec::new();
    let mut i: usize = 0;
    proof {
        assert(v@.subrange(0, 0) =~= Seq::<char>::empty());
    }
    while i < v.len()
        invariant
            i <= v.len(),
            parts@.len() + 1 == split(v@.subrange(0, i as int), seps@).len(),
            forall|k: int|
                0 <= k < parts@.len() ==> (#[trigger] parts@[k])@ == split(
                    v@.subrange(0, i as int),
                    seps@,
                )[k],
            cur@ == split(v@.subrange(0, i as int), seps@).last(),
        decreases v.len() - i,
    {
        let c = v[i];
        let ghost prev = v@.subrange(0, i as int);
        let ghost next = v@.subrange(0, i + 1);
        proof {
            assert(next.drop_last() == prev);
            assert(next.last() == c);
        }
        if contains_char(seps, c) {
            let done = cur;
            parts.push(done);
            cur = Vec::new();
        } else {
            cur.push(c);
        }
        i = i + 1;
        proof {
            assert(v@.subrange(0, i as int) == next);
        }
    }
    parts.push(cur);
    proof {
        assert(v@.subrange(0, v@.len() as int) == v@);
    }
    parts
}

/// `str::parse::<T>` for an unsigned integer type whose largest value is `max`.
pub fn parse_uint_vec(v: &Vec<char>, max: u64) -> (r: Option<u64>)
    ensures
        match parse_uint(v@, max as nat) {
            Some(n) => r == Some(n as u64),
            None => r.is_none(),
        },
{
    let start: usize = if v.len() > 0 && v[0] == '+' {
        1
    } else {
        0
    };
    let ghost t = if v@.len() > 0 && v@[0] == '+' {
        v@.drop_first()
    } else {
        v@
    };
    proof {
        assert(t == v@.subrange(start as int, v@.len() as int));
    }
    if start == v.len() {
        return None;
    }
    let mut value: u64 = 0;
    let mut i: usize = start;
    while i < v.len()
        invariant
            start <= i <= v.len(),
            t == v@.subrange(start as int, v@.len() as int),
            t == (if v@.len() > 0 && v@[0] == '+' {
                v@.drop_first()
            } else {
                v@
            }),
            forall|k: int| start <= k < i ==> is_digit(#[trigger] v@[k]),
            value as nat == digits_value(t.take(i - start)),
            value <= max,
        decreases v.len() - i,
    {
        let c = v[i];
        if !char_is_digit(c) {
            proof {
                assert(t[i - start] == c);
            }
            return None;
        }
        let d: u64 = ((c as u32) - ('0' as u32)) as u64;
        proof {
            assert(t.take(i - start + 1).drop_last() == t.take(i - start));
            assert(t.take(i - start + 1).last() == c);
        }
        let next: u128 = (value as u128) * 10 + (d as u128);
        if next > max as u128 {
            proof {
                if all_digits(t) {
                    lemma_digits_value_monotone(t, i - start + 1, t.len() as int);
                    assert(t.take(t.len() as int) == t);
                }
            }
            return None;
        }
        value = next as u64;
        i = i + 1;
    }
    proof {
        assert(t.take(t.len() as int) == t);
        assert forall|k: int| 0 <= k < t.len() implies is_digit(#[trigger] t[k]) by {
            assert(t[k] == v@[k + start]);
        }
    }
    Some(value)
}

/// Whether `p` occurs in `s` at index `i`.
pub open spec fn occurs_at(s: Seq<char>, p: Seq<char>, i: int) -> bool {
    0 <= i && i + p.len() <= s.len() && s.subrange(i, i + p.len()) == p
}

/// The first index at or after `i` where `p` occurs in `s` (`str::find` from `i`).
pub open spec fn find_from(s: Seq<char>, p: Seq<char>, i: int) -> Option<int>
    decreases s.len() + 1 - i,
{
    if i < 0 || i + p.len() > s.len() {
        None
    } else if occurs_at(s, p, i) {
        Some(i)
    } else {
        find_from(s, p, i + 1)
    }
}

pub proof fn lemma_find_from_occurs(s: Seq<char>, p: Seq<char>, i: int)
    ensures
        find_from(s, p, i) matches Some(j) ==> occurs_at(s, p, j) && i <= j,
    decreases s.len() + 1 - i,
{
    if !(i < 0 || i + p.len() > s.len()) && !occurs_at(s, p, i) {
        lemma_find_from_occurs(s, p, i + 1);
    }
}

/// Whether `p` occurs in `v` at index `i`.
pub fn matches_at(v: &Vec<char>, p: &Vec<char>, i: usize) -> (r: bool)
    ensures
        r == occurs_at(v@, p@, i as int),
{
    if i > v.len() || p.len() > v.len() - i {
        return false;
    }
    let mut k: usize = 0;
    while k < p.len()
        invariant
            k <= p.len(),
            i + p.len() <= v.len(),
            v@.subrange(i as int, i + k) == p@.subrange(0, k as int),
        decreases p.len() - k,
    {
        if v[i + k] != p[k] {
            proof {
                assert(v@.subrange(i as int, i + p@.len())[k as int] == v@[i + k]);
            }
            return false;
        }
        k = k + 1;
        proof {
            assert(v@.subrange(i as int, i + k) == p@.subrange(0, k as int));
        }
    }
    proof {
        assert(p@.subrange(0, p@.len() as int) == p@);
    }
    true
}

/// The first index where `p` occurs in `v` (`str::find`).
pub fn find_chars(v: &Vec<char>, p: &Vec<char>) -> (r: Option<usize>)
    ensures
        match find_from(v@, p@, 0) {
            Some(i) => r is Some && r->0 as int == i && occurs_at(v@, p@, i),
            None => r is None,
        },
{
    proof {
        lemma_find_from_occurs(v@, p@, 0);
    }
    if p.len() == 0 {
        proof {
            assert(v@.subrange(0, 0) == p@);
        }
        return Some(0);
    }
    let mut i: usize = 0;
    while i <= v.len()
        invariant
            p@.len() > 0,
            i <= v.len() + 1,
            find_from(v@, p@, 0) == find_from(v@, p@, i as int),
        decreases v.len() + 1 - i,
    {
        if p.len() > v.len() - i {
            return None;
        }
        if matches_at(v, p, i) {
            return Some(i);
        }
        i = i + 1;
    }
    None
}

/// The whitespace-separated words of `s` (`str::split_whitespace`).
pub open spec fn words(s: Seq<char>) -> Seq<Seq<char>>
    decreases s.len(),
{
    if s.len() == 0 {
        Seq::<Seq<char>>::empty()
    } else {
        let w = words(s.drop_last());
        if is_ws(s.last()) {
            w
        } else if s.len() >= 2 && !is_ws(s[s.len() - 2]) {
            w.update(w.len() - 1, w.last().push(s.last()))
        } else {
            w.push(seq![s.last()])
        }
    }
}

proof fn lemma_words_nonempty_when_word_end(s: Seq<char>)
    requires
        s.len() > 0,
        !is_ws(s.last()),
    ensures
        words(s).len() > 0,
    decreases s.len(),
{
    if s.len() >= 2 && !is_ws(s[s.len() - 2]) {
        assert(s.drop_last().last() == s[s.len() - 2]);
        lemma_words_nonempty_when_word_end(s.drop_last());
    }
}

proof fn lemma_words_last_nonempty(s: Seq<char>)
    requires
        s.len() >= 2,
        !is_ws(s[s.len() - 2]),
    ensures
        words(s.drop_last()).len() > 0,
{
    let t = s.drop_last();
    assert(t.last() == s[s.len() - 2]);
    lemma_words_nonempty_when_word_end(t);
}

/// `str::split_whitespace`, as characters.
pub fn words_vec(v: &Vec<char>) -> (r: Vec<Vec<char>>)
    ensures
        r@.len() == words(v@).len(),
        forall|k: int| 0 <= k < r@.len() ==> (#[trigger] r@[k])@ == words(v@)[k],
{
    let mut out: Vec<Vec<char>> = Vec::new();
    let mut i: usize = 0;
    while i < v.len()
        invariant
            i <= v.len(),
            out@.len() == words(v@.subrange(0, i as int)).len(),
            forall|k: int|
                0 <= k < out@.len() ==> (#[trigger] out@[k])@ == words(v@.subrange(0, i as int))[k],
        decreases v.len() - i,
    {
        let c = v[i];
        let ghost prev = v@.subrange(0, i as int);
        let ghost next = v@.subrange(0, i + 1);
        proof {
            assert(next.drop_last() == prev);
            assert(next.last() == c);
        }
        if char_is_ws(c) {
        } else if i >= 1 && !char_is_ws(v[i - 1]) {
            proof {
                assert(next[next.len() - 2] == v@[i - 1]);
                lemma_words_last_nonempty(next);
            }
            let last = out.len() - 1;
            let mut word = out.remove(last);
            word.push(c);
            out.push(word);
        } else {
            let mut word: Vec<char> = Vec::new();
            word.push(c);
            out.push(word);
        }
        i = i + 1;
        proof {
            assert(v@.subrange(0, i as int) == next);
        }
    }
    proof {
        assert(v@.subrange(0, v@.len() as int) == v@);
    }
    out
}

/// `s` with every leading `c` removed (`trim_start_matches(c)`).
pub open spec fn trim_start_char(s: Seq<char>, c: char) -> Seq<char>
    decreases s.len(),
{
    if s.len() > 0 && s[0] == c {
        trim_start_char(s.drop_first(), c)
    } else {
        s
    }
}

/// `trim_start_matches(c)`, as characters.
pub fn trim_start_char_vec(v: &Vec<char>, c: char) -> (r: Vec<char>)
    ensures
        r@ == trim_start_char(v@, c),
{
    let mut lo: usize = 0;
    proof {
        assert(v@.subrange(0, v@.len() as int) == v@);
    }
    while lo < v.len() && v[lo] == c
        invariant
            lo <= v.len(),
            trim_start_char(v@, c) == trim_start_char(v@.subrange(lo as int, v@.len() as int), c),
        decreases v.len() - lo,
    {
        proof {
            let t = v@.subrange(lo as int, v@.len() as int);
            assert(t.drop_first() == v@.subrange(lo + 1, v@.len() as int));
        }
        lo = lo + 1;
    }
    slice_of(v, lo, v.len())
}

/// Every `from` replaced by `to` (`str::replace` with single characters).
pub open spec fn replace_char(s: Seq<char>, from: char, to: char) -> Seq<char> {
    s.map_values(|c: char| if c == from { to } else { c })
}

/// `str::replace` with single characters, as characters.
pub fn replace_char_vec(v: &Vec<char>, from: char, to: char) -> (r: Vec<char>)
    ensures
        r@ == replace_char(v@, from, to),
{
    let mut r: Vec<char> = Vec::new();
    let mut i: usize = 0;
    while i < v.len()
        invariant
            i <= v.len(),
            r@ == replace_char(v@.subrange(0, i as int), from, to),
        decreases v.len() - i,
    {
        if v[i] == from {
            r.push(to);
        } else {
            r.push(v[i]);
        }
        i = i + 1;
        assert(r@ == replace_char(v@.subrange(0, i as int), from, to));
    }
    assert(v@.subrange(0, v@.len() as int) == v@);
    r
}

/// The pieces joined with `sep`, as characters.
pub fn join_vec(parts: &Vec<Vec<char>>, sep: char) -> (r: Vec<char>)
    ensures
        r@ == join(parts@.map_values(|p: Vec<char>| p@), sep),
{
    let ghost views = parts@.map_values(|p: Vec<char>| p@);
    let mut r: Vec<char> = Vec::new();
    let mut i: usize = 0;
    while i < parts.len()
        invariant
            i <= parts.len(),
            views == parts@.map_values(|p: Vec<char>| p@),
            r@ == join(views.subrange(0, i as int), sep),
        decreases parts.len() - i,
    {
        let ghost before = views.subrange(0, i as int);
        let ghost after = views.subrange(0, i + 1);
        proof {
            assert(after.drop_last() == before);
            assert(after.last() == parts@[i as int]@);
        }
        if i > 0 {
            r.push(sep);
        }
        append_chars(&mut r, &parts[i]);
        i = i + 1;
        proof {
            if i == 1 {
                assert(after.len() == 1);
            }
            assert(views.subrange(0, i as int) == after);
        }
    }
    proof {
        assert(views.subrange(0, views.len() as int) == views);
    }
    r
}

/// `a` followed by `b`.
pub fn concat(a: &str, b: &str) -> (r: String)
    ensures
        r@ == a@ + b@,
{
    let mut r = String::from_str(a);
    r.append(b);
    r
}

/// `a`, `b` and `c` one after another.
pub fn concat3(a: &str, b: &str, c: &str) -> (r: String)
    ensures
        r@ == a@ + b@ + c@,
{
    let mut r = String::from_str(a);
    r.append(b);
    r.append(c);
    r
}

/// The text of `s` as `{:?}` writes it (quoted and escaped).
pub uninterp spec fn debug_text(s: Seq<char>) -> Seq<char>;

/// Renders `s` with `Debug for str`: std's quoting and escaping, which this
/// crate does not restate; the result is named by `debug_text`.
#[verifier::external_body]
pub(crate) fn debug_str(s: &str) -> (r: String)
    ensures
        r@ == debug_text(s@),
{
    format!("{s:?}")
}

/// Decimal text of `n`, as `Display` writes it.
pub fn decimal_string(n: u64) -> (r: String)
    ensures
        r@ == decimal(n as nat),
    decreases n,
{
    if n < 10 {
        let mut r = String::new();
        let c = char_from_ascii((n as u32) + 48);
        push_char(&mut r, c);
        assert(r@ == seq![c]);
        r
    } else {
        let mut r = decimal_string(n / 10);
        let c = char_from_ascii(((n % 10) as u32) + 48);
        push_char(&mut r, c);
        r
    }
}

// ---------------------------------------------------------------- order of strings
/// The order of `str`'s `<` from position `i` on: code point by code point, a proper
/// prefix first.
pub open spec fn lex_lt_from(a: Seq<char>, b: Seq<char>, i: int) -> bool
    decreases a.len() - i,
{
    if i >= a.len() {
        i < b.len()
    } else if i >= b.len() {
        false
    } else if a[i] != b[i] {
        a[i] < b[i]
    } else {
        lex_lt_from(a, b, i + 1)
    }
}

/// `a < b` for strings.
pub open spec fn lex_lt(a: Seq<char>, b: Seq<char>) -> bool {
    lex_lt_from(a, b, 0)
}

proof fn lemma_lex_from_facts(a: Seq<char>, b: Seq<char>, c: Seq<char>, i: int)
    requires
        0 <= i,
        i <= a.len(),
        i <= b.len(),
        i <= c.len(),
        a.subrange(0, i) == b.subrange(0, i),
        b.subrange(0, i) == c.subrange(0, i),
    ensures
        !lex_lt_from(a, a, i),
        lex_lt_from(a, b, i) ==> !lex_lt_from(b, a, i),
        a != b ==> lex_lt_from(a, b, i) || lex_lt_from(b, a, i),
        lex_lt_from(a, b, i) && lex_lt_from(b, c, i) ==> lex_lt_from(a, c, i),
    decreases a.len() - i,
{
    if i < a.len() && i < b.len() && i < c.len() && a[i] == b[i] && b[i] == c[i] {
        assert(a.subrange(0, i + 1) == a.subrange(0, i).push(a[i]));
        assert(b.subrange(0, i + 1) == b.subrange(0, i).push(b[i]));
        assert(c.subrange(0, i + 1) == c.subrange(0, i).push(c[i]));
        lemma_lex_from_facts(a, b, c, i + 1);
    } else if i < a.len() && i < b.len() && a[i] == b[i] {
        assert(a.subrange(0, i + 1) == a.subrange(0, i).push(a[i]));
        assert(b.subrange(0, i + 1) == b.subrange(0, i).push(b[i]));
        lemma_lex_from_facts(a, b, b, i + 1);
    }
    if a != b && i == a.len() && i == b.len() {
        assert(a =~= a.subrange(0, i));
        assert(b =~= b.subrange(0, i));
    }
    if i < a.len() {
        assert(a.subrange(0, i + 1) == a.subrange(0, i).push(a[i]));
        lemma_lex_from_facts(a, a, a, i + 1);
    }
}

/// `<` on strings is a strict total order.
pub proof fn lemma_lex_order(a: Seq<char>, b: Seq<char>, c: Seq<char>)
    ensures
        !lex_lt(a, a),
        lex_lt(a, b) ==> !lex_lt(b, a),
        a != b ==> lex_lt(a, b) || lex_lt(b, a),
        lex_lt(a, b) && lex_lt(b, c) ==> lex_lt(a, c),
{
    assert(a.subrange(0, 0) =~= b.subrange(0, 0));
    assert(b.subrange(0, 0) =~= c.subrange(0, 0));
    lemma_lex_from_facts(a, b, c, 0);
}

/// `a < b` for strings.
pub fn chars_lt(a: &Vec<char>, b: &Vec<char>) -> (r: bool)
    ensures
        r == lex_lt(a@, b@),
{
    let mut i: usize = 0;
    while i < a.len() && i < b.len()
        invariant
            i <= a.len(),
            i <= b.len(),
            lex_lt(a@, b@) == lex_lt_from(a@, b@, i as int),
        decreases a.len() - i,
    {
        if a[i] != b[i] {
            return a[i] < b[i];
        }
        i = i + 1;
    }
    i < b.len()
}

/// Text without a separator is one piece.
pub proof fn lemma_split_single(a: Seq<char>, seps: Seq<char>)
    requires
        forall|i: int| 0 <= i < a.len() ==> !seps.contains(#[trigger] a[i]),
    ensures
        split(a, seps) == seq![a],
    decreases a.len(),
{
    if a.len() > 0 {
        lemma_split_single(a.drop_last(), seps);
        assert(a.drop_last().push(a.last()) =~= a);
        assert(seq![a.drop_last()].update(0, a.drop_last().push(a.last())) =~= seq![a]);
    } else {
        assert(a =~= Seq::<char>::empty());
    }
}

/// Two separator-free pieces joined by one separator split back into the two pieces.
pub proof fn lemma_split_pair(a: Seq<char>, sep: char, b: Seq<char>)
    requires
        !a.contains(sep),
        !b.contains(sep),
    ensures
        split(a + seq![sep] + b, seq![sep]) == seq![a, b],
    decreases b.len(),
{
    let seps = seq![sep];
    if b.len() == 0 {
        assert forall|i: int| 0 <= i < a.len() implies !seps.contains(#[trigger] a[i]) by {
            if seps.contains(a[i]) {
                assert(seps[0] == a[i]);
                assert(a.contains(sep));
            }
        }
        lemma_split_single(a, seps);
        let full = a + seq![sep] + b;
        assert(full.drop_last() =~= a);
        assert(full.last() == sep);
        assert(seps[0] == sep);
        assert(seps.contains(sep));
        assert(b =~= Seq::<char>::empty());
        assert(seq![a].push(Seq::<char>::empty()) =~= seq![a, b]);
    } else {
        let b0 = b.drop_last();
        assert(!b0.contains(sep)) by {
            if b0.contains(sep) {
                let k = choose|k: int| 0 <= k < b0.len() && b0[k] == sep;
                assert(b[k] == sep);
            }
        }
        lemma_split_pair(a, sep, b0);
        assert((a + seq![sep] + b).drop_last() =~= a + seq![sep] + b0);
        assert((a + seq![sep] + b).last() == b.last());
        assert(!seps.contains(b.last())) by {
            if seps.contains(b.last()) {
                assert(seps[0] == b.last());
                assert(b[b.len() - 1] == sep);
            }
        }
        assert(b0.push(b.last()) =~= b);
        assert(seq![a, b0].update(1, b0.push(b.last())) =~= seq![a, b]);
    }
}

/// Joining the pieces of a split on one separator with that separator gives the text back.
pub proof fn lemma_join_split(s: Seq<char>, c: char)
    ensures
        split(s, seq![c]).len() >= 1,
        join(split(s, seq![c]), c) == s,
    decreases s.len(),
{
    let seps = seq![c];
    if s.len() > 0 {
        lemma_join_split(s.drop_last(), c);
        let p = split(s.drop_last(), seps);
        let x = s.last();
        assert(s.drop_last().push(x) =~= s);
        if seps.contains(x) {
            assert(seps[0] == x);
            let q = p.push(Seq::<char>::empty());
            assert(q.drop_last() =~= p);
            assert(join(q, c) == join(p, c).push(c) + Seq::<char>::empty());
            assert(join(p, c).push(c) + Seq::<char>::empty() =~= s);
        } else {
            assert(x != c) by {
                if x == c {
                    assert(seps[0] == x);
                }
            }
            let last = p.last();
            let q = p.update(p.len() - 1, last.push(x));
            if p.len() == 1 {
                assert(q =~= seq![last.push(x)]);
                assert(join(q, c) == last.push(x));
                assert(join(p, c) == last);
            } else {
                assert(q.drop_last() =~= p.drop_last());
                assert(q.last() == last.push(x));
                assert(join(q, c) == join(p.drop_last(), c).push(c) + last.push(x));
                assert(join(p, c) == join(p.drop_last(), c).push(c) + last);
                assert(join(p.drop_last(), c).push(c) + last.push(x) =~= (join(p.drop_last(), c).push(c)
                    + last).push(x));
            }
        }
    } else {
        assert(split(s, seps) =~= seq![Seq::<char>::empty()]);
        assert(s =~= Seq::<char>::empty());
    }
}

/// Text that starts and ends with a digit has no whitespace to trim.
pub proof fn lemma_trim_digit_edges(t: Seq<char>)
    requires
        t.len() > 0,
        is_digit(t[0]),
        is_digit(t.last()),
    ensures
        trim(t) == t,
{
    assert(trim_start(t) == t);
    assert(trim_end(t) == t);
}

/// Appending separator-free text extends the last piece of a split.
pub proof fn lemma_split_extend(x: Seq<char>, l: Seq<char>, seps: Seq<char>)
    requires
        forall|k: int| 0 <= k < l.len() ==> !seps.contains(#[trigger] l[k]),
    ensures
        split(x + l, seps) == split(x, seps).update(
            split(x, seps).len() - 1,
            split(x, seps).last() + l,
        ),
    decreases l.len(),
{
    crate::update::release::lemma_split_nonempty(x, seps);
    if l.len() == 0 {
        assert(x + l =~= x);
        assert(split(x, seps).last() + l =~= split(x, seps).last());
        assert(split(x, seps).update(split(x, seps).len() - 1, split(x, seps).last()) =~= split(x, seps));
    } else {
        let l0 = l.drop_last();
        lemma_split_extend(x, l0, seps);
        assert((x + l).drop_last() =~= x + l0);
        assert((x + l).last() == l.last());
        assert(!seps.contains(l[l.len() - 1]));
        let p = split(x, seps);
        let q = p.update(p.len() - 1, p.last() + l0);
        assert(q.last() == p.last() + l0);
        assert((p.last() + l0).push(l.last()) =~= p.last() + l);
        assert(q.update(q.len() - 1, q.last().push(l.last())) =~= p.update(p.len() - 1, p.last() + l));
    }
}

/// Splitting pieces joined with a separator gives the pieces back, when no piece holds a
/// separator.
pub proof fn lemma_split_join(p: Seq<Seq<char>>, c: char, seps: Seq<char>)
    requires
        p.len() >= 1,
        seps.contains(c),
        forall|i: int, k: int| 0 <= i < p.len() && 0 <= k < p[i].len() ==> !seps.contains(#[trigger] p[i][k]),
    ensures
        split(join(p, c), seps) == p,
    decreases p.len(),
{
    if p.len() == 1 {
        assert forall|k: int| 0 <= k < p[0].len() implies !seps.contains(#[trigger] p[0][k]) by {}
        lemma_split_single(p[0], seps);
        assert(seq![p[0]] =~= p);
    } else {
        let d = p.drop_last();
        assert forall|i: int, k: int| 0 <= i < d.len() && 0 <= k < d[i].len() implies !seps.contains(
            #[trigger] d[i][k],
        ) by {
            assert(d[i] == p[i]);
        }
        lemma_split_join(d, c, seps);
        let x = join(d, c).push(c);
        let l = p.last();
        assert forall|k: int| 0 <= k < l.len() implies !seps.contains(#[trigger] l[k]) by {
            assert(l == p[p.len() - 1]);
        }
        lemma_split_extend(x, l, seps);
        assert(x.drop_last() =~= join(d, c));
        assert(x.last() == c);
        assert(split(x, seps) == d.push(Seq::<char>::empty()));
        assert(Seq::<char>::empty() + l =~= l);
        assert(d.push(Seq::<char>::empty()).update(d.len() as int, l) =~= p);
    }
}

/// Replacing a separator that no piece holds changes only the separators of a join.
pub proof fn lemma_replace_join(p: Seq<Seq<char>>, from: char, to: char)
    requires
        forall|i: int, k: int| 0 <= i < p.len() && 0 <= k < p[i].len() ==> #[trigger] p[i][k] != from,
    ensures
        replace_char(join(p, from), from, to) == join(p, to),
    decreases p.len(),
{
    if p.len() == 1 {
        assert(replace_char(p[0], from, to) =~= p[0]);
    } else if p.len() >= 2 {
        let d = p.drop_last();
        assert forall|i: int, k: int| 0 <= i < d.len() && 0 <= k < d[i].len() implies #[trigger] d[i][k]
            != from by {
            assert(d[i] == p[i]);
        }
        lemma_replace_join(d, from, to);
        let l = p.last();
        assert(l == p[p.len() - 1]);
        assert(replace_char(l, from, to) =~= l);
        assert(replace_char(join(d, from).push(from) + l, from, to) =~= replace_char(join(d, from), from, to).push(
            to,
        ) + replace_char(l, from, to));
    } else {
        assert(replace_char(Seq::<char>::empty(), from, to) =~= Seq::<char>::empty());
    }
}

/// The first piece of a join opens the text, followed by the separator when more pieces follow.
pub proof fn lemma_join_head(parts: Seq<Seq<char>>, sep: char)
    requires
        parts.len() >= 1,
    ensures
        parts.len() == 1 ==> join(parts, sep) == parts[0],
        parts.len() >= 2 ==> starts_with(join(parts, sep), parts[0].push(sep)),
    decreases parts.len(),
{
    if parts.len() >= 2 {
        let d = parts.drop_last();
        lemma_join_head(d, sep);
        let h = parts[0].push(sep);
        let jd = join(d, sep);
        let j = join(parts, sep);
        assert(j == jd.push(sep) + parts.last());
        if d.len() == 1 {
            assert(jd == parts[0]);
            assert(j.subrange(0, h.len() as int) =~= h);
        } else {
            assert(d[0] == parts[0]);
            assert(jd.subrange(0, h.len() as int) == h);
            assert(j.subrange(0, h.len() as int) =~= jd.subrange(0, h.len() as int));
        }
    }
}

/// A character that the text lacks occurs in no piece of its split.
pub proof fn lemma_split_pieces_avoid(s: Seq<char>, seps: Seq<char>, x: char)
    requires
        forall|i: int| 0 <= i < s.len() ==> s[i] != x,
    ensures
        forall|k: int, j: int|
            0 <= k < split(s, seps).len() && 0 <= j < split(s, seps)[k].len() ==> #[trigger] split(
                s,
                seps,
            )[k][j] != x,
    decreases s.len(),
{
    if s.len() > 0 {
        let d = s.drop_last();
        assert forall|i: int| 0 <= i < d.len() implies d[i] != x by {
            assert(d[i] == s[i]);
        }
        lemma_split_pieces_avoid(d, seps, x);
        crate::update::release::lemma_split_nonempty(d, seps);
        let p = split(d, seps);
        let q = split(s, seps);
        assert(s.last() == s[s.len() - 1]);
        assert forall|k: int, j: int| 0 <= k < q.len() && 0 <= j < q[k].len() implies #[trigger] q[k][j]
            != x by {
            if seps.contains(s.last()) {
                if k < q.len() - 1 {
                    assert(q[k] == p[k]);
                }
            } else {
                if k == q.len() - 1 {
                    if j < p.last().len() {
                        assert(q[k][j] == p[k][j]);
                    }
                } else {
                    assert(q[k] == p[k]);
                }
            }
        }
    }
}

} // verus!
