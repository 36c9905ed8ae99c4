//! Character-level helpers shared by the rest of the library: views of
//! strings as character sequences, ASCII classification, trimming and
//! decimal conversion.

use vstd::prelude::*;

verus! {

// ---------------------------------------------------------------------------
// Character classes
// ---------------------------------------------------------------------------

pub open spec fn is_ascii_lower(c: char) -> bool {
    'a' <= c && c <= 'z'
}

pub open spec fn is_ascii_upper(c: char) -> bool {
    'A' <= c && c <= 'Z'
}

pub open spec fn is_ascii_digit(c: char) -> bool {
    '0' <= c && c <= '9'
}

pub open spec fn is_ascii_alpha(c: char) -> bool {
    is_ascii_lower(c) || is_ascii_upper(c)
}

pub open spec fn is_ascii_alnum(c: char) -> bool {
    is_ascii_alpha(c) || is_ascii_digit(c)
}

/// Unicode general category Cc: U+0000..=U+001F and U+007F..=U+009F.
pub open spec fn is_control(c: char) -> bool {
    (c as u32) <= 0x1f || (0x7f <= (c as u32) && (c as u32) <= 0x9f)
}

/// The Unicode `White_Space` property.
pub open spec fn is_whitespace(c: char) -> bool {
    let u = c as u32;
    ||| 0x09 <= u && u <= 0x0d
    ||| u == 0x20
    ||| u == 0x85
    ||| u == 0xa0
    ||| u == 0x1680
    ||| 0x2000 <= u && u <= 0x200a
    ||| u == 0x2028
    ||| u == 0x2029
    ||| u == 0x202f
    ||| u == 0x205f
    ||| u == 0x3000
}

pub open spec fn ascii_lower(c: char) -> char {
    if is_ascii_upper(c) {
        ((c as u32) + 32) as char
    } else {
        c
    }
}

pub open spec fn ascii_lower_seq(s: Seq<char>) -> Seq<char> {
    s.map_values(|c: char| ascii_lower(c))
}

pub fn char_is_ascii_alnum(c: char) -> (r: bool)
    ensures
        r == is_ascii_alnum(c),
{
    ('a' <= c && c <= 'z') || ('A' <= c && c <= 'Z') || ('0' <= c && c <= '9')
}

pub fn char_is_ascii_alpha(c: char) -> (r: bool)
    ensures
        r == is_ascii_alpha(c),
{
    ('a' <= c && c <= 'z') || ('A' <= c && c <= 'Z')
}

pub fn char_is_control(c: char) -> (r: bool)
    ensures
        r == is_control(c),
{
    let u = c as u32;
    u <= 0x1f || (0x7f <= u && u <= 0x9f)
}

pub fn char_is_whitespace(c: char) -> (r: bool)
    ensures
        r == is_whitespace(c),
{
    let u = c as u32;
    (0x09 <= u && u <= 0x0d) || u == 0x20 || u == 0x85 || u == 0xa0 || u == 0x1680 || (0x2000
        <= u && u <= 0x200a) || u == 0x2028 || u == 0x2029 || u == 0x202f || u == 0x205f || u
        == 0x3000
}

pub fn char_ascii_lower(c: char) -> (r: char)
    ensures
        r == ascii_lower(c),
{
    if 'A' <= c && c <= 'Z' {
        let b = (c as u8) + 32;
        b as char
    } else {
        c
    }
}


// ---------------------------------------------------------------------------
// Strings as character sequences
// ---------------------------------------------------------------------------

/// The characters of `s`, in order.
pub fn chars_of(s: &str) -> (v: Vec<char>)
    ensures
        v@ == s@,
{
    let mut v: Vec<char> = Vec::new();
    for c in it: s.chars()
        invariant
            v@ == it.seq().take(it.index() as int),
            it.seq() == s@,
    {
        v.push(c);
    }
    v
}

/// `String::push`: appends one character.
#[verifier::external_body]
pub(crate) fn push_char(s: &mut String, c: char)
    ensures
        final(s)@ == old(s)@.push(c),
{
    s.push(c);
}

/// The string made of the characters `cs`.
pub fn string_of(cs: &[char]) -> (r: String)
    ensures
        r@ == cs@,
{
    let mut r = String::new();
    let mut i: usize = 0;
    while i < cs.len()
        invariant
            i <= cs.len(),
            r@ == cs@.take(i as int),
        decreases cs.len() - i,
    {
        push_char(&mut r, cs[i]);
        assert(cs@.take(i + 1) =~= cs@.take(i as int).push(cs[i as int]));
        i += 1;
    }
    assert(cs@.take(cs.len() as int) =~= cs@);
    r
}

/// A fresh `String` holding `s`.
pub fn owned(s: &str) -> (r: String)
    ensures
        r@ == s@,
{
    s.to_owned()
}

/// `a + b` as a new `String`.
pub fn concat2(a: &str, b: &str) -> (r: String)
    ensures
        r@ == a@ + b@,
{
    let mut r = a.to_owned();
    r.append(b);
    r
}

/// `a + b + c` as a new `String`.
pub fn concat3(a: &str, b: &str, c: &str) -> (r: String)
    ensures
        r@ == a@ + b@ + c@,
{
    let mut r = a.to_owned();
    r.append(b);
    r.append(c);
    r
}

/// Character-wise equality of two sequences.
pub fn chars_eq(a: &[char], b: &[char]) -> (r: bool)
    ensures
        r == (a@ == b@),
{
    if a.len() != b.len() {
        return false;
    }
    let mut i: usize = 0;
    while i < a.len()
        invariant
            a.len() == b.len(),
            i <= a.len(),
            forall|j: int| 0 <= j < i ==> a@[j] == b@[j],
        decreases a.len() - i,
    {
        if a[i] != b[i] {
            return false;
        }
        i += 1;
    }
    assert(a@ =~= b@);
    true
}

/// Equality of two string slices by their characters.
pub fn str_eq(a: &str, b: &str) -> (r: bool)
    ensures
        r == (a@ == b@),
{
    let va = chars_of(a);
    let vb = chars_of(b);
    chars_eq(va.as_slice(), vb.as_slice())
}

pub open spec fn starts_with(s: Seq<char>, p: Seq<char>) -> bool {
    p.len() <= s.len() && s.subrange(0, p.len() as int) == p
}

pub open spec fn ends_with(s: Seq<char>, p: Seq<char>) -> bool {
    p.len() <= s.len() && s.subrange(s.len() - p.len(), s.len() as int) == p
}

/// Whether `s[at..]` begins with `p`.
pub open spec fn matches_at(s: Seq<char>, at: int, p: Seq<char>) -> bool {
    0 <= at && at + p.len() <= s.len() && s.subrange(at, at + p.len()) == p
}

pub fn chars_match_at(s: &[char], at: usize, p: &[char]) -> (r: bool)
    ensures
        r == matches_at(s@, at as int, p@),
{
    if at > s.len() || p.len() > s.len() - at {
        return false;
    }
    let mut i: usize = 0;
    while i < p.len()
        invariant
            at + p.len() <= s.len(),
            i <= p.len(),
            forall|j: int| 0 <= j < i ==> s@[at + j] == p@[j],
        decreases p.len() - i,
    {
        if s[at + i] != p[i] {
            assert(s@.subrange(at as int, at + p.len())[i as int] != p@[i as int]);
            return false;
        }
        i += 1;
    }
    assert(s@.subrange(at as int, at + p.len()) =~= p@);
    true
}

pub fn chars_starts_with(s: &[char], p: &[char]) -> (r: bool)
    ensures
        r == starts_with(s@, p@),
{
    chars_match_at(s, 0, p)
}

pub fn chars_ends_with(s: &[char], p: &[char]) -> (r: bool)
    ensures
        r == ends_with(s@, p@),
{
    if p.len() > s.len() {
        return false;
    }
    chars_match_at(s, s.len() - p.len(), p)
}

pub fn str_starts_with(s: &str, p: &str) -> (r: bool)
    ensures
        r == starts_with(s@, p@),
{
    let vs = chars_of(s);
    let vp = chars_of(p);
    chars_starts_with(vs.as_slice(), vp.as_slice())
}

pub fn str_ends_with(s: &str, p: &str) -> (r: bool)
    ensures
        r == ends_with(s@, p@),
{
    let vs = chars_of(s);
    let vp = chars_of(p);
    chars_ends_with(vs.as_slice(), vp.as_slice())
}

pub open spec fn contains_char(s: Seq<char>, c: char) -> bool {
    exists|i: int| 0 <= i < s.len() && s[i] == c
}

pub fn chars_contain(s: &[char], c: char) -> (r: bool)
    ensures
        r == contains_char(s@, c),
{
    let mut i: usize = 0;
    while i < s.len()
        invariant
            i <= s.len(),
            forall|j: int| 0 <= j < i ==> s@[j] != c,
        decreases s.len() - i,
    {
        if s[i] == c {
            return true;
        }
        i += 1;
    }
    false
}

/// Number of occurrences of `c` in `s`.
pub open spec fn count_char(s: Seq<char>, c: char) -> nat
    decreases s.len(),
{
    if s.len() == 0 {
        0
    } else {
        count_char(s.drop_last(), c) + if s.last() == c {
            1nat
        } else {
            0nat
        }
    }
}

pub fn chars_count(s: &[char], c: char) -> (r: usize)
    ensures
        r == count_char(s@, c),
{
    let mut n: usize = 0;
    let mut i: usize = 0;
    while i < s.len()
        invariant
            i <= s.len(),
            n == count_char(s@.take(i as int), c),
            n <= i,
        decreases s.len() - i,
    {
        assert(s@.take(i + 1).drop_last() =~= s@.take(i as int));
        if s[i] == c {
            n += 1;
        }
        i += 1;
    }
    assert(s@.take(s.len() as int) =~= s@);
    n
}

/// `s.split(sep)`: the pieces between occurrences of `sep` (always at least one).
pub open spec fn split_on(s: Seq<char>, sep: char) -> Seq<Seq<char>>
    decreases s.len(),
{
    if s.len() == 0 {
        seq![Seq::<char>::empty()]
    } else if s.last() == sep {
        split_on(s.drop_last(), sep).push(Seq::<char>::empty())
    } else {
        let p = split_on(s.drop_last(), sep);
        p.update(p.len() - 1, p.last().push(s.last()))
    }
}

pub proof fn lemma_split_nonempty(s: Seq<char>, sep: char)
    ensures
        split_on(s, sep).len() >= 1,
    decreases s.len(),
{
    if s.len() > 0 {
        lemma_split_nonempty(s.drop_last(), sep);
    }
}

/// `s.split(sep)` collected into character vectors.
pub fn split_chars(s: &[char], sep: char) -> (r: Vec<Vec<char>>)
    ensures
        r@.len() == split_on(s@, sep).len(),
        forall|i: int| 0 <= i < r@.len() ==> #[trigger] r@[i]@ == split_on(s@, sep)[i],
{
    let mut done: Vec<Vec<char>> = Vec::new();
    let mut cur: Vec<char> = Vec::new();
    let mut i: usize = 0;
    while i < s.len()
        invariant
            i <= s.len(),
            done@.len() + 1 == split_on(s@.take(i as int), sep).len(),
            forall|j: int| 0 <= j < done@.len() ==> #[trigger] done@[j]@ == split_on(
                s@.take(i as int),
                sep,
            )[j],
            cur@ == split_on(s@.take(i as int), sep).last(),
        decreases s.len() - i,
    {
        proof {
            lemma_split_nonempty(s@.take(i as int), sep);
        }
        assert(s@.take(i + 1).drop_last() =~= s@.take(i as int));
        if s[i] == sep {
            let finished = cur;
            done.push(finished);
            cur = Vec::new();
        } else {
            cur.push(s[i]);
        }
        i += 1;
    }
    assert(s@.take(s.len() as int) =~= s@);
    done.push(cur);
    done
}

/// Index of the first `c` in `s`.
pub open spec fn first_index_of(s: Seq<char>, c: char) -> Option<int>
    decreases s.len(),
{
    if s.len() == 0 {
        None
    } else if s[0] == c {
        Some(0)
    } else {
        match first_index_of(s.drop_first(), c) {
            Some(i) => Some(i + 1),
            None => None,
        }
    }
}

pub proof fn lemma_first_index_of(s: Seq<char>, c: char)
    ensures
        match first_index_of(s, c) {
            Some(i) => 0 <= i < s.len() && s[i] == c && forall|j: int| 0 <= j < i ==> s[j] != c,
            None => forall|j: int| 0 <= j < s.len() ==> s[j] != c,
        },
    decreases s.len(),
{
    if s.len() > 0 && s[0] != c {
        lemma_first_index_of(s.drop_first(), c);
        assert forall|j: int| 1 <= j < s.len() implies s[j] == s.drop_first()[j - 1] by {}
    }
}

/// Position of the first `c` in `s` at or after `from`.
pub fn find_char_from(s: &[char], from: usize, c: char) -> (r: Option<usize>)
    requires
        from <= s@.len(),
    ensures
        match first_index_of(s@.skip(from as int), c) {
            Some(i) => r == Some((from + i) as usize),
            None => r is None,
        },
{
    let mut i: usize = from;
    while i < s.len()
        invariant
            from <= i <= s@.len(),
            forall|j: int| from <= j < i ==> s@[j] != c,
        decreases s.len() - i,
    {
        if s[i] == c {
            proof {
                let sk = s@.skip(from as int);
                lemma_first_index_of(sk, c);
                assert(sk[i - from] == c);
                match first_index_of(sk, c) {
                    Some(k) => {
                        assert(0 <= k < sk.len());
                        assert(sk[k] == s@[from + k]);
                        assert(k == i - from);
                    },
                    None => {},
                }
            }
            return Some(i);
        }
        i += 1;
    }
    proof {
        let sk = s@.skip(from as int);
        lemma_first_index_of(sk, c);
        match first_index_of(sk, c) {
            Some(k) => {
                assert(sk[k] == s@[from + k]);
            },
            None => {},
        }
    }
    None
}

// ---------------------------------------------------------------------------
// Trimming
// ---------------------------------------------------------------------------

/// Sets of characters stripped from the ends of strings.
#[derive(Clone, Copy, Debug, PartialEq, Eq, Structural)]
pub enum TrimClass {
    /// Unicode `White_Space` (`str::trim`).
    Whitespace,
    /// `-` only.
    Dash,
    /// `.` and its look-alikes U+FF0E, U+2024, U+FE52.
    Dot,
}

pub open spec fn in_class(cls: TrimClass, c: char) -> bool {
    match cls {
        TrimClass::Whitespace => is_whitespace(c),
        TrimClass::Dash => c == '-',
        TrimClass::Dot => c == '.' || c == '\u{ff0e}' || c == '\u{2024}' || c == '\u{fe52}',
    }
}

pub fn char_in_class(cls: TrimClass, c: char) -> (r: bool)
    ensures
        r == in_class(cls, c),
{
    match cls {
        TrimClass::Whitespace => char_is_whitespace(c),
        TrimClass::Dash => c == '-',
        TrimClass::Dot => c == '.' || c == '\u{ff0e}' || c == '\u{2024}' || c == '\u{fe52}',
    }
}

/// Number of leading characters of `s` in `cls`.
pub open spec fn lead_count(s: Seq<char>, cls: TrimClass) -> nat
    decreases s.len(),
{
    if s.len() > 0 && in_class(cls, s[0]) {
        1 + lead_count(s.drop_first(), cls)
    } else {
        0
    }
}

/// Number of trailing characters of `s` in `cls`.
pub open spec fn trail_count(s: Seq<char>, cls: TrimClass) -> nat
    decreases s.len(),
{
    if s.len() > 0 && in_class(cls, s.last()) {
        1 + trail_count(s.drop_last(), cls)
    } else {
        0
    }
}

/// `s` with its leading and trailing characters of `cls` removed
/// (`str::trim_matches`).
pub open spec fn trim_by(s: Seq<char>, cls: TrimClass) -> Seq<char> {
    let a = s.skip(lead_count(s, cls) as int);
    a.take(a.len() - trail_count(a, cls))
}

/// `str::trim`.
pub open spec fn trim(s: Seq<char>) -> Seq<char> {
    trim_by(s, TrimClass::Whitespace)
}

pub proof fn lemma_lead_count(s: Seq<char>, cls: TrimClass)
    ensures
        lead_count(s, cls) <= s.len(),
        forall|j: int| 0 <= j < lead_count(s, cls) ==> in_class(cls, s[j]),
        lead_count(s, cls) < s.len() ==> !in_class(cls, s[lead_count(s, cls) as int]),
    decreases s.len(),
{
    if s.len() > 0 && in_class(cls, s[0]) {
        lemma_lead_count(s.drop_first(), cls);
        assert forall|j: int| 0 <= j < lead_count(s, cls) implies in_class(cls, s[j]) by {
            if j > 0 {
                assert(s[j] == s.drop_first()[j - 1]);
            }
        }
    }
}

pub proof fn lemma_trail_count(s: Seq<char>, cls: TrimClass)
    ensures
        trail_count(s, cls) <= s.len(),
        forall|j: int| s.len() - trail_count(s, cls) <= j < s.len() ==> in_class(cls, s[j]),
        trail_count(s, cls) < s.len() ==> !in_class(cls, s[s.len() - trail_count(s, cls) - 1]),
    decreases s.len(),
{
    if s.len() > 0 && in_class(cls, s.last()) {
        lemma_trail_count(s.drop_last(), cls);
        assert forall|j: int| s.len() - trail_count(s, cls) <= j < s.len() implies in_class(
            cls,
            s[j],
        ) by {
            if j < s.len() - 1 {
                assert(s[j] == s.drop_last()[j]);
            }
        }
    }
}

fn count_lead(s: &[char], cls: TrimClass) -> (n: usize)
    ensures
        n == lead_count(s@, cls),
{
    let mut i: usize = 0;
    assert(s@.skip(0) =~= s@);
    while i < s.len() && char_in_class(cls, s[i])
        invariant
            i <= s.len(),
            lead_count(s@, cls) == i + lead_count(s@.skip(i as int), cls),
        decreases s.len() - i,
    {
        assert(s@.skip(i as int).drop_first() =~= s@.skip(i + 1));
        i += 1;
    }
    i
}

fn count_trail(s: &[char], cls: TrimClass) -> (n: usize)
    ensures
        n == trail_count(s@, cls),
{
    let mut k: usize = 0;
    assert(s@.take(s.len() as int) =~= s@);
    while k < s.len() && char_in_class(cls, s[s.len() - 1 - k])
        invariant
            k <= s.len(),
            trail_count(s@, cls) == k + trail_count(s@.take(s.len() - k), cls),
        decreases s.len() - k,
    {
        assert(s@.take(s.len() - k).drop_last() =~= s@.take(s.len() - k - 1));
        k += 1;
    }
    k
}

/// The bounds `(start, end)` of `trim_by(s, cls)` inside `s`.
pub fn trim_bounds_by(s: &[char], cls: TrimClass) -> (r: (usize, usize))
    ensures
        r.0 <= r.1 <= s.len(),
        s@.subrange(r.0 as int, r.1 as int) == trim_by(s@, cls),
{
    let a = count_lead(s, cls);
    proof {
        lemma_lead_count(s@, cls);
    }
    let rest = vstd::slice::slice_subrange(s, a, s.len());
    let b = count_trail(rest, cls);
    proof {
        lemma_trail_count(rest@, cls);
        assert(s@.subrange(a as int, s.len() - b) =~= trim_by(s@, cls));
    }
    (a, s.len() - b)
}

/// The bounds of `trim(s)` inside `s`.
pub fn trim_bounds(s: &[char]) -> (r: (usize, usize))
    ensures
        r.0 <= r.1 <= s.len(),
        s@.subrange(r.0 as int, r.1 as int) == trim(s@),
{
    trim_bounds_by(s, TrimClass::Whitespace)
}

/// `trim_by` as a new vector.
pub fn trimmed_chars(s: &[char], cls: TrimClass) -> (r: Vec<char>)
    ensures
        r@ == trim_by(s@, cls),
{
    let (a, b) = trim_bounds_by(s, cls);
    vstd::slice::slice_to_vec(vstd::slice::slice_subrange(s, a, b))
}

/// `str::trim`, returned as an owned string.
pub fn trimmed(s: &str) -> (r: String)
    ensures
        r@ == trim(s@),
{
    let v = chars_of(s);
    let (a, b) = trim_bounds(v.as_slice());
    string_of(vstd::slice::slice_subrange(v.as_slice(), a, b))
}

// ---------------------------------------------------------------------------
// Case mapping
// ---------------------------------------------------------------------------

/// The result of `str::to_lowercase` on a string with these characters.
pub uninterp spec fn lowercase(s: Seq<char>) -> Seq<char>;

/// `str::to_lowercase` (full Unicode lowercase mapping).
#[verifier::external_body]
pub(crate) fn to_lowercase(s: &str) -> (r: String)
    ensures
        r@ == lowercase(s@),
{
    s.to_lowercase()
}

/// ASCII lowercase of every character.
pub fn ascii_lowercase(s: &[char]) -> (r: Vec<char>)
    ensures
        r@ == ascii_lower_seq(s@),
{
    let mut r: Vec<char> = Vec::new();
    let mut i: usize = 0;
    while i < s.len()
        invariant
            i <= s.len(),
            r@ == ascii_lower_seq(s@.take(i as int)),
        decreases s.len() - i,
    {
        r.push(char_ascii_lower(s[i]));
        assert(ascii_lower_seq(s@.take(i + 1)) =~= ascii_lower_seq(s@.take(i as int)).push(
            ascii_lower(s@[i as int]),
        ));
        i += 1;
    }
    assert(s@.take(s.len() as int) =~= s@);
    r
}


// ---------------------------------------------------------------------------
// Decimal numbers
// ---------------------------------------------------------------------------

pub open spec fn digit_char(d: nat) -> char {
    (48 + d) as char
}

pub open spec fn digit_value(c: char) -> nat {
    ((c as u32) - 48) as nat
}

/// Decimal representation of `n` without leading zeros (`"0"` for zero).
pub open spec fn decimal(n: nat) -> Seq<char>
    decreases n,
{
    if n < 10 {
        seq![digit_char(n)]
    } else {
        decimal(n / 10).push(digit_char(n % 10))
    }
}

/// The number written by the decimal digits `d`.
pub open spec fn digits_value(d: Seq<char>) -> nat
    decreases d.len(),
{
    if d.len() == 0 {
        0
    } else {
        digits_value(d.drop_last()) * 10 + digit_value(d.last())
    }
}

pub open spec fn all_digits(d: Seq<char>) -> bool {
    forall|i: int| 0 <= i < d.len() ==> is_ascii_digit(#[trigger] d[i])
}

/// What `u64::from_str` accepts: an optional `+` followed by at least one
/// ASCII digit, and nothing else; the value must fit in 64 bits.
pub open spec fn parse_u64_spec(s: Seq<char>) -> Option<u64> {
    let d = if s.len() > 0 && s[0] == '+' {
        s.drop_first()
    } else {
        s
    };
    if d.len() > 0 && all_digits(d) && digits_value(d) <= u64::MAX {
        Some(digits_value(d) as u64)
    } else {
        None
    }
}

fn digit_of(d: u64) -> (c: char)
    requires
        d < 10,
    ensures
        c == digit_char(d as nat),
        is_ascii_digit(c),
{
    let b = (d as u8) + 48;
    b as char
}

/// Decimal digits of `n`.
pub fn decimal_chars(n: u64) -> (v: Vec<char>)
    ensures
        v@ == decimal(n as nat),
    decreases n,
{
    if n < 10 {
        let mut v = Vec::new();
        v.push(digit_of(n));
        v
    } else {
        let mut v = decimal_chars(n / 10);
        v.push(digit_of(n % 10));
        v
    }
}

/// `n.to_string()` for an unsigned integer.
pub fn u64_to_string(n: u64) -> (r: String)
    ensures
        r@ == decimal(n as nat),
{
    let v = decimal_chars(n);
    string_of(v.as_slice())
}

/// Reading back a decimal representation gives the number.
pub proof fn lemma_decimal_roundtrip(n: nat)
    ensures
        digits_value(decimal(n)) == n,
        decimal(n).len() > 0,
    decreases n,
{
    let d = n % 10;
    assert(digit_value(digit_char(d)) == d);
    if n < 10 {
        assert(decimal(n).drop_last() =~= Seq::<char>::empty());
        assert(decimal(n).last() == digit_char(d));
        assert(digits_value(Seq::<char>::empty()) == 0);
    } else {
        lemma_decimal_roundtrip(n / 10);
        assert(decimal(n).drop_last() =~= decimal(n / 10));
        assert(decimal(n).last() == digit_char(d));
        assert(n == (n / 10) * 10 + n % 10);
    }
}

/// Different numbers have different decimal representations.
pub proof fn lemma_decimal_injective(a: nat, b: nat)
    requires
        decimal(a) == decimal(b),
    ensures
        a == b,
{
    lemma_decimal_roundtrip(a);
    lemma_decimal_roundtrip(b);
}

pub proof fn lemma_digits_value_monotone(d: Seq<char>, i: int)
    requires
        0 <= i <= d.len(),
    ensures
        digits_value(d.take(i)) <= digits_value(d),
    decreases d.len() - i,
{
    if i < d.len() {
        lemma_digits_value_monotone(d, i + 1);
        assert(d.take(i + 1).drop_last() =~= d.take(i));
    } else {
        assert(d.take(i) =~= d);
    }
}

/// `u64::from_str`: `None` exactly where the standard parser reports an error.
pub fn parse_u64(s: &str) -> (r: Option<u64>)
    ensures
        r == parse_u64_spec(s@),
{
    let v = chars_of(s);
    let start: usize = if v.len() > 0 && v[0] == '+' {
        1
    } else {
        0
    };
    let ghost d = if s@.len() > 0 && s@[0] == '+' {
        s@.drop_first()
    } else {
        s@
    };
    assert(d =~= s@.skip(start as int));
    if start >= v.len() {
        return None;
    }
    let mut acc: u64 = 0;
    let mut i: usize = start;
    while i < v.len()
        invariant
            start <= i <= v.len(),
            v@ == s@,
            d == v@.skip(start as int),
            d == (if s@.len() > 0 && s@[0] == '+' {
                s@.drop_first()
            } else {
                s@
            }),
            d.len() > 0,
            acc == digits_value(d.take(i - start)),
            all_digits(d.take(i - start)),
        decreases v.len() - i,
    {
        let c = v[i];
        if !('0' <= c && c <= '9') {
            assert(d[i - start] == c);
            assert(!all_digits(d));
            return None;
        }
        assert(d.take(i - start + 1).drop_last() =~= d.take(i - start));
        assert(d.take(i - start + 1).last() == c);
        let dv = (c as u32 - 48) as u64;
        match acc.checked_mul(10) {
            Some(m) => match m.checked_add(dv) {
                Some(n) => {
                    acc = n;
                },
                None => {
                    proof {
                        if all_digits(d) {
                            lemma_digits_value_monotone(d, i - start + 1);
                        }
                    }
                    return None;
                },
            },
            None => {
                proof {
                    if all_digits(d) {
                        lemma_digits_value_monotone(d, i - start + 1);
                    }
                }
                return None;
            },
        }
        i += 1;
    }
    assert(d.take(i - start) =~= d);
    Some(acc)
}

} // verus!
