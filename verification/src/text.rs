//! Character-level helpers for the line-oriented formats of the driver:
//! whitespace trimming, searching, comparison with literals and decimal
//! numbers, all over the characters of a `&str`.

use vstd::prelude::*;

verus! {

/// The characters with the Unicode `White_Space` property, which is what
/// `char::is_whitespace` tests and `str::trim` strips.
pub open spec fn is_white_space(c: char) -> bool {
    ||| ('\u{9}' <= c && c <= '\u{d}')
    ||| c == ' '
    ||| c == '\u{85}'
    ||| c == '\u{a0}'
    ||| c == '\u{1680}'
    ||| ('\u{2000}' <= c && c <= '\u{200a}')
    ||| c == '\u{2028}'
    ||| c == '\u{2029}'
    ||| c == '\u{202f}'
    ||| c == '\u{205f}'
    ||| c == '\u{3000}'
}

/// `s` without its leading white space.
pub open spec fn trim_start(s: Seq<char>) -> Seq<char>
    decreases s.len(),
{
    if s.len() > 0 && is_white_space(s[0]) {
        trim_start(s.drop_first())
    } else {
        s
    }
}

/// `s` without its trailing white space.
pub open spec fn trim_end(s: Seq<char>) -> Seq<char>
    decreases s.len(),
{
    if s.len() > 0 && is_white_space(s.last()) {
        trim_end(s.drop_last())
    } else {
        s
    }
}

/// `s` without leading and trailing white space, as `str::trim` gives it.
pub open spec fn trim(s: Seq<char>) -> Seq<char> {
    trim_end(trim_start(s))
}

/// Index of the first `c` in `s`.
pub open spec fn index_of(s: Seq<char>, c: char) -> Option<int>
    decreases s.len(),
{
    if s.len() == 0 {
        None
    } else if s[0] == c {
        Some(0)
    } else {
        match index_of(s.drop_first(), c) {
            Some(i) => Some(i + 1),
            None => None,
        }
    }
}

/// `s` split at its first `c`, as `str::split_once` does it.
pub open spec fn split_once(s: Seq<char>, c: char) -> Option<(Seq<char>, Seq<char>)> {
    match index_of(s, c) {
        Some(i) => Some((s.subrange(0, i), s.subrange(i + 1, s.len() as int))),
        None => None,
    }
}

/// Index of the last newline in `s`.
pub open spec fn last_newline(s: Seq<char>) -> Option<int>
    decreases s.len(),
{
    if s.len() == 0 {
        None
    } else if s.last() == '\n' {
        Some(s.len() - 1)
    } else {
        last_newline(s.drop_last())
    }
}

/// The pieces of `s` between newlines, in order.
pub open spec fn lines(s: Seq<char>) -> Seq<Seq<char>>
    decreases s.len(),
{
    match last_newline(s) {
        Some(j) => if 0 <= j < s.len() {
            lines(s.subrange(0, j)).push(s.subrange(j + 1, s.len() as int))
        } else {
            seq![s]
        },
        None => seq![s],
    }
}

/// `true` when every character of `s` is an ASCII digit.
pub open spec fn all_digits(s: Seq<char>) -> bool {
    forall|i: int| 0 <= i < s.len() ==> '0' <= #[trigger] s[i] && s[i] <= '9'
}

/// The number that the decimal digits `s` spell.
pub open spec fn decimal_value(s: Seq<char>) -> nat
    decreases s.len(),
{
    if s.len() == 0 {
        0
    } else {
        decimal_value(s.drop_last()) * 10 + (s.last() as nat - '0' as nat) as nat
    }
}

/// What `u64::from_str` gives for `s`: an optional `+`, then at least one
/// ASCII digit and nothing else, of a value that fits in 64 bits.
pub open spec fn parse_u64(s: Seq<char>) -> Option<u64> {
    let d = if s.len() > 0 && s[0] == '+' { s.drop_first() } else { s };
    if d.len() > 0 && all_digits(d) && decimal_value(d) <= u64::MAX {
        Some(decimal_value(d) as u64)
    } else {
        None
    }
}

/// `true` when `needle` occurs in `s` as a contiguous piece.
pub open spec fn contains_seq(s: Seq<char>, needle: Seq<char>) -> bool {
    exists|i: int| 0 <= i <= s.len() - needle.len() && #[trigger] s.subrange(i, i + needle.len()) == needle
}

/// The characters of an optional string slice.
pub open spec fn opt_chars(o: Option<&str>) -> Option<Seq<char>> {
    match o {
        Some(s) => Some(s@),
        None => None,
    }
}

/// The characters of an optional string.
pub open spec fn opt_string_chars(o: Option<String>) -> Option<Seq<char>> {
    match o {
        Some(s) => Some(s@),
        None => None,
    }
}

/// The characters of `s`.
pub fn chars_of(s: &str) -> (r: Vec<char>)
    ensures
        r@ == s@,
{
    let n = s.unicode_len();
    let mut v: Vec<char> = Vec::new();
    let mut i: usize = 0;
    while i < n
        invariant
            n == s@.len(),
            i <= n,
            v@ == s@.subrange(0, i as int),
        decreases n - i,
    {
        v.push(s.get_char(i));
        i = i + 1;
    }
    v
}

/// `char::is_whitespace`.
pub fn is_whitespace(c: char) -> (r: bool)
    ensures
        r == is_white_space(c),
{
    ('\u{9}' <= c && c <= '\u{d}') || c == ' ' || c == '\u{85}' || c == '\u{a0}' || c == '\u{1680}'
        || ('\u{2000}' <= c && c <= '\u{200a}') || c == '\u{2028}' || c == '\u{2029}' || c
        == '\u{202f}' || c == '\u{205f}' || c == '\u{3000}'
}


/// The range of `cs[lo..hi]` that is left once leading and trailing white
/// space is removed.
pub fn trim_range(cs: &Vec<char>, lo: usize, hi: usize) -> (r: (usize, usize))
    requires
        lo <= hi <= cs.len(),
    ensures
        lo <= r.0 <= r.1 <= hi,
        cs@.subrange(r.0 as int, r.1 as int) == trim(cs@.subrange(lo as int, hi as int)),
{
    let mut a = lo;
    while a < hi && is_whitespace(cs[a])
        invariant
            lo <= a <= hi <= cs.len(),
            trim_start(cs@.subrange(lo as int, hi as int)) == trim_start(
                cs@.subrange(a as int, hi as int),
            ),
        decreases hi - a,
    {
        assert(cs@.subrange(a as int, hi as int).drop_first() =~= cs@.subrange(a + 1, hi as int));
        a = a + 1;
    }
    assert(trim_start(cs@.subrange(a as int, hi as int)) == cs@.subrange(a as int, hi as int));
    let mut b = hi;
    while b > a && is_whitespace(cs[b - 1])
        invariant
            lo <= a <= b <= hi <= cs.len(),
            trim_end(cs@.subrange(a as int, hi as int)) == trim_end(cs@.subrange(a as int, b as int)),
        decreases b - a,
    {
        assert(cs@.subrange(a as int, b as int).drop_last() =~= cs@.subrange(a as int, b - 1));
        b = b - 1;
    }
    (a, b)
}

/// The first `c` in `s` is at `i` when `s[i]` is `c` and no earlier character is.
pub proof fn lemma_index_of_found(s: Seq<char>, c: char, i: int)
    requires
        0 <= i < s.len(),
        s[i] == c,
        forall|j: int| 0 <= j < i ==> s[j] != c,
    ensures
        index_of(s, c) == Some(i),
    decreases i,
{
    if i > 0 {
        lemma_index_of_found(s.drop_first(), c, i - 1);
    }
}

proof fn lemma_index_of_absent(s: Seq<char>, c: char)
    requires
        forall|j: int| 0 <= j < s.len() ==> s[j] != c,
    ensures
        index_of(s, c) is None,
    decreases s.len(),
{
    if s.len() > 0 {
        lemma_index_of_absent(s.drop_first(), c);
    }
}

/// Index of the first `c` in `cs[lo..hi]`, counted from the start of `cs`.
pub fn find_char(cs: &Vec<char>, lo: usize, hi: usize, c: char) -> (r: Option<usize>)
    requires
        lo <= hi <= cs.len(),
    ensures
        r matches Some(e) ==> lo <= e < hi && cs@[e as int] == c && index_of(
            cs@.subrange(lo as int, hi as int),
            c,
        ) == Some(e - lo),
        r is None ==> index_of(cs@.subrange(lo as int, hi as int), c) is None,
{
    let ghost s = cs@.subrange(lo as int, hi as int);
    let mut i = lo;
    while i < hi
        invariant
            lo <= i <= hi <= cs.len(),
            s == cs@.subrange(lo as int, hi as int),
            forall|j: int| lo <= j < i ==> cs@[j] != c,
        decreases hi - i,
    {
        if cs[i] == c {
            proof {
                lemma_index_of_found(s, c, i - lo);
            }
            return Some(i);
        }
        i = i + 1;
    }
    proof {
        lemma_index_of_absent(s, c);
    }
    None
}

/// `true` when `cs[lo..hi]` spells `lit`.
pub fn range_eq(cs: &Vec<char>, lo: usize, hi: usize, lit: &str) -> (r: bool)
    requires
        lo <= hi <= cs.len(),
    ensures
        r == (cs@.subrange(lo as int, hi as int) == lit@),
{
    let n = lit.unicode_len();
    if hi - lo != n {
        proof {
            assert(cs@.subrange(lo as int, hi as int).len() != lit@.len());
        }
        return false;
    }
    let mut i: usize = 0;
    while i < n
        invariant
            lo <= hi <= cs.len(),
            hi - lo == n,
            n == lit@.len(),
            i <= n,
            forall|j: int| 0 <= j < i ==> cs@[lo + j] == lit@[j],
        decreases n - i,
    {
        if cs[lo + i] != lit.get_char(i) {
            proof {
                assert(cs@.subrange(lo as int, hi as int)[i as int] != lit@[i as int]);
            }
            return false;
        }
        i = i + 1;
    }
    assert(cs@.subrange(lo as int, hi as int) =~= lit@);
    true
}


proof fn lemma_decimal_prefix_le(s: Seq<char>, k: int)
    requires
        0 <= k <= s.len(),
    ensures
        decimal_value(s.subrange(0, k)) <= decimal_value(s),
    decreases s.len() - k,
{
    if k < s.len() {
        assert(s.drop_last().subrange(0, k) =~= s.subrange(0, k));
        lemma_decimal_prefix_le(s.drop_last(), k);
    } else {
        assert(s.subrange(0, k) =~= s);
    }
}

/// `u64::from_str` on `cs[lo..hi]`.
pub fn parse_u64_range(cs: &Vec<char>, lo: usize, hi: usize) -> (r: Option<u64>)
    requires
        lo <= hi <= cs.len(),
    ensures
        r == parse_u64(cs@.subrange(lo as int, hi as int)),
{
    let ghost s = cs@.subrange(lo as int, hi as int);
    let mut a = lo;
    if a < hi && cs[a] == '+' {
        a = a + 1;
    }
    let ghost d = cs@.subrange(a as int, hi as int);
    assert(d =~= (if s.len() > 0 && s[0] == '+' { s.drop_first() } else { s }));
    if a == hi {
        return None;
    }
    let mut v: u64 = 0;
    let mut i = a;
    while i < hi
        invariant
            lo <= a <= i <= hi <= cs.len(),
            d == cs@.subrange(a as int, hi as int),
            s == cs@.subrange(lo as int, hi as int),
            d == (if s.len() > 0 && s[0] == '+' { s.drop_first() } else { s }),
            all_digits(cs@.subrange(a as int, i as int)),
            v == decimal_value(cs@.subrange(a as int, i as int)),
        decreases hi - i,
    {
        let c = cs[i];
        assert(d[i - a] == c);
        if !('0' <= c && c <= '9') {
            assert(!all_digits(d));
            return None;
        }
        let digit = (c as u32 - '0' as u32) as u64;
        assert(cs@.subrange(a as int, i + 1).drop_last() =~= cs@.subrange(a as int, i as int));
        assert(d.subrange(0, i + 1 - a) =~= cs@.subrange(a as int, i + 1));
        match v.checked_mul(10) {
            Some(w) => match w.checked_add(digit) {
                Some(x) => {
                    v = x;
                },
                None => {
                    proof {
                        if all_digits(d) {
                            lemma_decimal_prefix_le(d, i + 1 - a);
                        }
                    }
                    return None;
                },
            },
            None => {
                proof {
                    if all_digits(d) {
                        lemma_decimal_prefix_le(d, i + 1 - a);
                    }
                }
                return None;
            },
        }
        i = i + 1;
    }
    Some(v)
}


/// `a == b` on string slices.
pub fn str_eq(a: &str, b: &str) -> (r: bool)
    ensures
        r == (a@ == b@),
{
    let cs = chars_of(a);
    assert(cs@.subrange(0, cs@.len() as int) =~= a@);
    range_eq(&cs, 0, cs.len(), b)
}

/// `u64::from_str`.
pub fn parse_u64_str(s: &str) -> (r: Option<u64>)
    ensures
        r == parse_u64(s@),
{
    let cs = chars_of(s);
    assert(cs@.subrange(0, cs@.len() as int) =~= s@);
    parse_u64_range(&cs, 0, cs.len())
}

/// `str::trim`.
pub fn trim_str(s: &str) -> (r: &str)
    ensures
        r@ == trim(s@),
{
    let cs = chars_of(s);
    let (a, b) = trim_range(&cs, 0, cs.len());
    assert(cs@.subrange(0, cs@.len() as int) =~= s@);
    s.substring_char(a, b)
}

/// `str::starts_with` with a string pattern.
pub fn starts_with_str(s: &str, prefix: &str) -> (r: bool)
    ensures
        r == (prefix@.len() <= s@.len() && s@.subrange(0, prefix@.len() as int) == prefix@),
{
    let cs = chars_of(s);
    let n = prefix.unicode_len();
    if n > cs.len() {
        return false;
    }
    range_eq(&cs, 0, n, prefix)
}

/// `true` when `needle` occurs in `s`.
pub fn contains_str(s: &str, needle: &str) -> (r: bool)
    ensures
        r == contains_seq(s@, needle@),
{
    let cs = chars_of(s);
    let n = cs.len();
    let m = needle.unicode_len();
    if m > n {
        return false;
    }
    if m == 0 {
        assert(s@.subrange(0, 0 + needle@.len() as int) =~= needle@);
        return true;
    }
    let mut i: usize = 0;
    while i <= n - m
        invariant
            cs@ == s@,
            n == s@.len(),
            m == needle@.len(),
            1 <= m <= n,
            i <= n - m + 1,
            forall|j: int| 0 <= j < i ==> #[trigger] s@.subrange(j, j + m) != needle@,
        decreases n - m + 1 - i,
    {
        if range_eq(&cs, i, i + m, needle) {
            return true;
        }
        i = i + 1;
    }
    false
}

} // verus!
