//! Verified text helpers: decimal rendering of machine integers, used by
//! every report writer in place of unchecked formatting.

use vstd::prelude::*;
use vstd::string::StringExecFns;
use vstd::arithmetic::div_mod::{lemma_fundamental_div_mod, lemma_fundamental_div_mod_converse, lemma_mod_bound};

verus! {

/// The decimal digit character for `d` (0 through 9).
pub open spec fn spec_digit(d: int) -> char {
    if d == 0 {
        '0'
    } else if d == 1 {
        '1'
    } else if d == 2 {
        '2'
    } else if d == 3 {
        '3'
    } else if d == 4 {
        '4'
    } else if d == 5 {
        '5'
    } else if d == 6 {
        '6'
    } else if d == 7 {
        '7'
    } else if d == 8 {
        '8'
    } else {
        '9'
    }
}

/// The decimal digit string of a non-negative integer, most significant
/// digit first, with no leading zero except for zero itself.
pub open spec fn spec_digits(n: int) -> Seq<char>
    decreases n,
{
    if n < 10 {
        seq![spec_digit(n)]
    } else {
        spec_digits(n / 10).push(spec_digit(n % 10))
    }
}

fn digit_str(d: u128) -> (s: &'static str)
    requires
        d < 10,
    ensures
        s@ =~= seq![spec_digit(d as int)],
{
    proof {
        reveal_strlit("0");
        reveal_strlit("1");
        reveal_strlit("2");
        reveal_strlit("3");
        reveal_strlit("4");
        reveal_strlit("5");
        reveal_strlit("6");
        reveal_strlit("7");
        reveal_strlit("8");
        reveal_strlit("9");
    }
    if d == 0 {
        "0"
    } else if d == 1 {
        "1"
    } else if d == 2 {
        "2"
    } else if d == 3 {
        "3"
    } else if d == 4 {
        "4"
    } else if d == 5 {
        "5"
    } else if d == 6 {
        "6"
    } else if d == 7 {
        "7"
    } else if d == 8 {
        "8"
    } else {
        "9"
    }
}

/// Render a machine integer in decimal.
pub fn u128_to_string(n: u128) -> (s: String)
    ensures
        s@ == spec_digits(n as int),
    decreases n,
{
    if n < 10 {
        String::from_str(digit_str(n))
    } else {
        let mut s = u128_to_string(n / 10);
        s.append(digit_str(n % 10));
        proof {
            assert(s@ =~= spec_digits(n as int));
        }
        s
    }
}

/// Render a machine integer in decimal.
pub fn u64_to_string(n: u64) -> (s: String)
    ensures
        s@ == spec_digits(n as int),
{
    u128_to_string(n as u128)
}

/// Render a count in decimal.
pub fn usize_to_string(n: usize) -> (s: String)
    ensures
        s@ == spec_digits(n as int),
{
    u128_to_string(n as u128)
}

/// A quantity of tenths rendered with one decimal place: 513 tenths is
/// "51.3".
pub open spec fn spec_tenths(t: int) -> Seq<char> {
    spec_digits(t / 10) + seq!['.', spec_digit(t % 10)]
}

/// Render a quantity of tenths with one decimal place.
pub fn tenths_to_string(t: u128) -> (s: String)
    ensures
        s@ == spec_tenths(t as int),
{
    let mut s = u128_to_string(t / 10);
    proof {
        reveal_strlit(".");
    }
    s.append(".");
    s.append(digit_str(t % 10));
    proof {
        assert(s@ =~= spec_tenths(t as int));
    }
    s
}

/// Exact rounded hundredths of `num / den`: the value times 100, rounded
/// half up.
pub open spec fn spec_hundredths(num: int, den: int) -> int {
    (num * 200 + den) / (2 * den)
}

/// The two-decimal rendering of a non-negative ratio `num / den`.  When
/// the whole part fits 64 bits and the denominator is a machine size,
/// the result is the exact rounded hundredths; a larger value keeps its
/// whole part and shows zero cents.
pub open spec fn spec_ratio_decimals(num: int, den: int) -> Seq<char> {
    if den <= u64::MAX && num / den <= u64::MAX {
        let h = spec_hundredths(num, den);
        spec_digits(h / 100) + seq!['.', spec_digit(h % 100 / 10), spec_digit(h % 10)]
    } else {
        spec_digits(num / den) + seq!['.', '0', '0']
    }
}

/// Render `num / den` with two decimal places.
pub fn ratio_to_decimal_string(num: u128, den: u128) -> (s: String)
    requires
        1 <= den,
    ensures
        s@ == spec_ratio_decimals(num as int, den as int),
{
    proof {
        reveal_strlit(".");
        reveal_strlit(".00");
    }
    if den <= u64::MAX as u128 && num / den <= u64::MAX as u128 {
        let q = num / den;
        let r = num % den;
        let hf = (r * 200 + den) / (2 * den);
        proof {
            lemma_fundamental_div_mod(num as int, den as int);
            lemma_fundamental_div_mod((r * 200 + den) as int, (2 * den) as int);
            lemma_mod_bound((r as int) * 200 + den as int, 2 * (den as int));
            assert((num as int) * 200 + den as int == ((q as int) * 100) * (2 * (den as int))
                + ((r as int) * 200 + den as int)) by (nonlinear_arith)
                requires
                    num as int == (den as int) * (q as int) + (r as int),
            ;
            assert(((q as int) * 100) * (2 * (den as int)) + (2 * (den as int)) * (hf as int)
                == ((q as int) * 100 + (hf as int)) * (2 * (den as int))) by (nonlinear_arith);
            lemma_fundamental_div_mod_converse(
                (num as int) * 200 + den as int,
                2 * (den as int),
                (q as int) * 100 + (hf as int),
                ((r as int) * 200 + den as int) % (2 * (den as int)),
            );
        }
        let h = q * 100 + hf;
        proof {
            assert((q as int) * 100 + (hf as int) == ((num as int) * 200 + den as int) / (2 * (
            den as int)));
            assert(h as int == (q as int) * 100 + (hf as int));
            assert(spec_hundredths(num as int, den as int) == ((num as int) * 200 + den as int)
                / (2 * (den as int)));
            assert(h as int == spec_hundredths(num as int, den as int));
        }
        let mut s = u128_to_string(h / 100);
        s.append(".");
        s.append(digit_str(h % 100 / 10));
        s.append(digit_str(h % 10));
        proof {
            assert(s@ =~= spec_ratio_decimals(num as int, den as int));
        }
        s
    } else {
        let mut s = u128_to_string(num / den);
        s.append(".00");
        proof {
            assert(s@ =~= spec_ratio_decimals(num as int, den as int));
        }
        s
    }
}

// ---------------------------------------------------------------------
// Character-level string utilities: lexicographic order, path stems and
// extension tests.

/// Lexicographic order by character code, decided from position `i` on:
/// a string is at most another when, at the first differing position,
/// its character is smaller, or it is a prefix of the other.
pub open spec fn str_le_from(a: Seq<char>, b: Seq<char>, i: int) -> bool
    decreases a.len() - i,
{
    if i >= a.len() {
        true
    } else if i >= b.len() {
        false
    } else if (a[i] as u32) != (b[i] as u32) {
        (a[i] as u32) < (b[i] as u32)
    } else {
        str_le_from(a, b, i + 1)
    }
}

/// Lexicographic order by character code.
pub open spec fn str_le(a: Seq<char>, b: Seq<char>) -> bool {
    str_le_from(a, b, 0)
}

proof fn lemma_str_le_total_from(a: Seq<char>, b: Seq<char>, i: int)
    requires
        0 <= i,
    ensures
        str_le_from(a, b, i) || str_le_from(b, a, i),
    decreases a.len() - i,
{
    if i < a.len() && i < b.len() && (a[i] as u32) == (b[i] as u32) {
        lemma_str_le_total_from(a, b, i + 1);
    }
}

proof fn lemma_str_le_refl_from(a: Seq<char>, i: int)
    requires
        0 <= i,
    ensures
        str_le_from(a, a, i),
    decreases a.len() - i,
{
    if i < a.len() {
        lemma_str_le_refl_from(a, i + 1);
    }
}

/// The order is reflexive.
pub proof fn lemma_str_le_refl(a: Seq<char>)
    ensures
        str_le(a, a),
{
    lemma_str_le_refl_from(a, 0);
}

/// The order is total.
pub proof fn lemma_str_le_total(a: Seq<char>, b: Seq<char>)
    ensures
        str_le(a, b) || str_le(b, a),
{
    lemma_str_le_total_from(a, b, 0);
}

proof fn lemma_str_le_trans_from(a: Seq<char>, b: Seq<char>, c: Seq<char>, i: int)
    requires
        0 <= i,
        str_le_from(a, b, i),
        str_le_from(b, c, i),
    ensures
        str_le_from(a, c, i),
    decreases a.len() - i,
{
    if i < a.len() {
        if i < b.len() && i < c.len() && (a[i] as u32) == (b[i] as u32) && (b[i] as u32) == (
        c[i] as u32) {
            lemma_str_le_trans_from(a, b, c, i + 1);
        }
    }
}

/// The order is transitive.
pub proof fn lemma_str_le_trans(a: Seq<char>, b: Seq<char>, c: Seq<char>)
    requires
        str_le(a, b),
        str_le(b, c),
    ensures
        str_le(a, c),
{
    lemma_str_le_trans_from(a, b, c, 0);
}

/// Decide the lexicographic order of two strings.
pub fn str_le_exec(a: &String, b: &String) -> (r: bool)
    ensures
        r == str_le(a@, b@),
{
    let an = a.as_str().unicode_len();
    let bn = b.as_str().unicode_len();
    let mut i: usize = 0;
    loop
        invariant
            i <= an,
            an == a@.len(),
            bn == b@.len(),
            str_le(a@, b@) == str_le_from(a@, b@, i as int),
        decreases an - i,
    {
        if i >= an {
            return true;
        }
        if i >= bn {
            return false;
        }
        let ca = a.as_str().get_char(i);
        let cb = b.as_str().get_char(i);
        if (ca as u32) != (cb as u32) {
            return (ca as u32) < (cb as u32);
        }
        i = i + 1;
    }
}

/// Index of the last occurrence of `c`, or -1 when there is none.
pub open spec fn last_char_index(s: Seq<char>, c: char) -> int
    decreases s.len(),
{
    if s.len() == 0 {
        -1
    } else if s.last() == c {
        s.len() - 1
    } else {
        last_char_index(s.drop_last(), c)
    }
}

pub proof fn lemma_last_char_index(s: Seq<char>, c: char)
    ensures
        -1 <= last_char_index(s, c) < s.len(),
        last_char_index(s, c) >= 0 ==> s[last_char_index(s, c)] == c,
        forall|j: int| last_char_index(s, c) < j < s.len() ==> s[j] != c,
    decreases s.len(),
{
    if s.len() > 0 && s.last() != c {
        lemma_last_char_index(s.drop_last(), c);
        assert(forall|j: int| 0 <= j < s.len() - 1 ==> s[j] == s.drop_last()[j]);
    }
}

proof fn lemma_last_char_index_at(s: Seq<char>, c: char, i: int)
    requires
        0 <= i < s.len(),
        s[i] == c,
        forall|j: int| i < j < s.len() ==> s[j] != c,
    ensures
        last_char_index(s, c) == i,
    decreases s.len(),
{
    if i < s.len() - 1 {
        assert(s.drop_last()[i] == s[i]);
        assert(forall|j: int| i < j < s.len() - 1 ==> s.drop_last()[j] == s[j]);
        lemma_last_char_index_at(s.drop_last(), c, i);
    }
}

/// Scan for the last occurrence of `c` in `s`.
fn find_last_char(s: &str, c: char) -> (r: Option<usize>)
    ensures
        match r {
            Some(i) => i < s@.len() && last_char_index(s@, c) == i,
            None => last_char_index(s@, c) == -1,
        },
{
    let n = s.unicode_len();
    let mut j = n;
    while j > 0
        invariant
            j <= n,
            n == s@.len(),
            forall|k: int| j <= k < s@.len() ==> s@[k] != c,
        decreases j,
    {
        j = j - 1;
        if s.get_char(j) == c {
            proof {
                lemma_last_char_index_at(s@, c, j as int);
            }
            return Some(j);
        }
    }
    proof {
        lemma_last_char_index(s@, c);
    }
    None
}

/// The stem of a path: what follows the last separator, with a trailing
/// extension removed; "Unknown" when that leaves nothing.
pub open spec fn spec_file_stem(s: Seq<char>) -> Seq<char> {
    let base = s.subrange(last_char_index(s, '/') + 1, s.len() as int);
    if base.len() == 0 {
        "Unknown"@
    } else {
        let d = last_char_index(base, '.');
        if d > 0 {
            base.subrange(0, d)
        } else {
            base
        }
    }
}

/// Extract the stem of a path.
pub fn file_stem(path: &String) -> (r: String)
    ensures
        r@ == spec_file_stem(path@),
{
    let s = path.as_str();
    let n = s.unicode_len();
    proof {
        lemma_last_char_index(path@, '/');
    }
    let start: usize = match find_last_char(s, '/') {
        Some(i) => i + 1,
        None => 0,
    };
    let ghost base = path@.subrange(last_char_index(path@, '/') + 1, path@.len() as int);
    if start == n {
        let r = String::from_str("Unknown");
        proof {
            assert(base.len() == 0);
        }
        r
    } else {
        let base_str = s.substring_char(start, n);
        proof {
            assert(base_str@ =~= base);
            lemma_last_char_index(base, '.');
        }
        let r = match find_last_char(base_str, '.') {
            Some(d) if d > 0 => {
                let stem = base_str.substring_char(0, d);
                proof {
                    assert(stem@ =~= base.subrange(0, last_char_index(base, '.')));
                }
                String::from_str(stem)
            },
            _ => String::from_str(base_str),
        };
        proof {
            assert(r@ == spec_file_stem(path@));
        }
        r
    }
}

/// The path names a feature file: it ends in ".feature".
pub open spec fn spec_has_feature_extension(s: Seq<char>) -> bool {
    s.len() >= 8 && s.subrange(s.len() - 8, s.len() as int) == ".feature"@
}

/// Decide whether the path ends in ".feature".
pub fn has_feature_extension(path: &String) -> (r: bool)
    ensures
        r == spec_has_feature_extension(path@),
{
    proof {
        reveal_strlit(".feature");
    }
    let s = path.as_str();
    let n = s.unicode_len();
    if n < 8 {
        return false;
    }
    let mut k: usize = 0;
    while k < 8
        invariant
            k <= 8,
            n == s@.len(),
            n >= 8,
            s@ == path@,
            forall|t: int| 0 <= t < k ==> s@[n - 8 + t] == ".feature"@[t],
        decreases 8 - k,
    {
        proof {
            reveal_strlit(".feature");
        }
        let ext = ".feature";
        if s.get_char(n - 8 + k) != ext.get_char(k) {
            proof {
                assert(path@.subrange(n - 8, n as int)[k as int] == path@[n - 8 + k as int]);
            }
            return false;
        }
        k = k + 1;
    }
    proof {
        assert(path@.subrange(n - 8, n as int) =~= ".feature"@);
    }
    true
}

// ---------------------------------------------------------------------
// Lines, trimming, prefixes and digit parsing.

/// Index of the first newline at or after `i`, or the length.
pub open spec fn first_nl_from(s: Seq<char>, i: int) -> int
    decreases s.len() - i,
{
    if i < 0 || i >= s.len() {
        s.len() as int
    } else if s[i] == '\n' {
        i
    } else {
        first_nl_from(s, i + 1)
    }
}

/// The lines of the text from position `i` on, split at newlines; a
/// trailing newline yields no empty line.
pub open spec fn lines_from(s: Seq<char>, i: int) -> Seq<Seq<char>>
    decreases s.len() - i,
{
    if i < 0 || i >= s.len() {
        Seq::empty()
    } else {
        let j = first_nl_from(s, i);
        let j2 = if j < i {
            i
        } else {
            j
        };
        if j2 >= s.len() {
            seq![s.subrange(i, s.len() as int)]
        } else {
            seq![s.subrange(i, j2)] + lines_from(s, j2 + 1)
        }
    }
}

/// The text split at newlines; a trailing newline yields no empty line.
pub open spec fn lines_of(s: Seq<char>) -> Seq<Seq<char>> {
    lines_from(s, 0)
}

pub proof fn lemma_first_nl(s: Seq<char>, i: int)
    requires
        0 <= i <= s.len(),
    ensures
        i <= first_nl_from(s, i) <= s.len(),
        first_nl_from(s, i) < s.len() ==> s[first_nl_from(s, i)] == '\n',
        forall|k: int| i <= k < first_nl_from(s, i) ==> s[k] != '\n',
    decreases s.len() - i,
{
    if i < s.len() && s[i] != '\n' {
        lemma_first_nl(s, i + 1);
    }
}

pub open spec fn is_space(c: char) -> bool {
    c == ' ' || c == '\t' || c == '\r'
}

/// The text with leading and trailing blanks removed.
pub open spec fn spec_trim(s: Seq<char>) -> Seq<char>
    decreases s.len(),
{
    if s.len() == 0 {
        s
    } else if is_space(s.first()) {
        spec_trim(s.drop_first())
    } else if is_space(s.last()) {
        spec_trim(s.drop_last())
    } else {
        s
    }
}

/// One character is a blank.
pub fn char_is_space(c: char) -> (r: bool)
    ensures
        r == is_space(c),
{
    c == ' ' || c == '\t' || c == '\r'
}

/// Trim leading and trailing blanks.
pub fn trim(s: &str) -> (r: String)
    ensures
        r@ == spec_trim(s@),
{
    let n = s.unicode_len();
    let mut lo: usize = 0;
    let mut hi: usize = n;
    proof {
        assert(s@.subrange(0, n as int) =~= s@);
    }
    while lo < hi && char_is_space(s.get_char(lo))
        invariant
            lo <= hi <= n,
            n == s@.len(),
            spec_trim(s@) == spec_trim(s@.subrange(lo as int, hi as int)),
        decreases hi - lo,
    {
        proof {
            assert(s@.subrange(lo as int, hi as int).drop_first() =~= s@.subrange(
                lo + 1,
                hi as int,
            ));
        }
        lo = lo + 1;
    }
    while hi > lo && char_is_space(s.get_char(hi - 1))
        invariant
            lo <= hi <= n,
            n == s@.len(),
            spec_trim(s@) == spec_trim(s@.subrange(lo as int, hi as int)),
            lo < hi ==> !is_space(s@[lo as int]),
        decreases hi,
    {
        proof {
            assert(s@.subrange(lo as int, hi as int).drop_last() =~= s@.subrange(
                lo as int,
                hi - 1,
            ));
        }
        hi = hi - 1;
    }
    let r = String::from_str(s.substring_char(lo, hi));
    proof {
        if lo == hi {
            assert(s@.subrange(lo as int, hi as int).len() == 0);
        } else {
            assert(s@.subrange(lo as int, hi as int).first() == s@[lo as int]);
            assert(s@.subrange(lo as int, hi as int).last() == s@[hi - 1]);
        }
        assert(r@ =~= spec_trim(s@));
    }
    r
}

/// `s` starts with `p`.
pub open spec fn spec_starts_with(s: Seq<char>, p: Seq<char>) -> bool {
    s.len() >= p.len() && s.subrange(0, p.len() as int) == p
}

/// Decide whether `s` starts with `p`.
pub fn starts_with(s: &str, p: &str) -> (r: bool)
    ensures
        r == spec_starts_with(s@, p@),
{
    let n = s.unicode_len();
    let m = p.unicode_len();
    if n < m {
        return false;
    }
    let mut k: usize = 0;
    while k < m
        invariant
            k <= m <= n,
            n == s@.len(),
            m == p@.len(),
            forall|t: int| 0 <= t < k ==> s@[t] == p@[t],
        decreases m - k,
    {
        if s.get_char(k) != p.get_char(k) {
            proof {
                assert(s@.subrange(0, p@.len() as int)[k as int] == s@[k as int]);
            }
            return false;
        }
        k = k + 1;
    }
    proof {
        assert(s@.subrange(0, p@.len() as int) =~= p@);
    }
    true
}

/// The numeric value of a digit string, or nothing when the text is
/// empty or holds a non-digit.
pub open spec fn spec_parse_digits(s: Seq<char>) -> Option<int>
    decreases s.len(),
{
    if s.len() == 0 {
        None
    } else if s.len() == 1 {
        if '0' <= s[0] <= '9' {
            Some(s[0] as int - '0' as int)
        } else {
            None
        }
    } else {
        match spec_parse_digits(s.drop_last()) {
            Some(v) => if '0' <= s.last() <= '9' {
                Some(v * 10 + (s.last() as int - '0' as int))
            } else {
                None
            },
            None => None,
        }
    }
}

proof fn lemma_digit_overflow(acc: int, d: int, m: int)
    requires
        0 <= acc,
        0 <= d,
        m >= 0,
        acc > m / 10 || (acc == m / 10 && d > m % 10),
    ensures
        acc * 10 + d > m,
{
    lemma_fundamental_div_mod(m, 10);
    lemma_mod_bound(m, 10);
    if acc > m / 10 {
        assert(acc * 10 + d > m) by (nonlinear_arith)
            requires
                acc >= m / 10 + 1,
                m == 10 * (m / 10) + m % 10,
                m % 10 < 10,
                d >= 0,
        ;
    } else {
        assert(acc * 10 + d > m) by (nonlinear_arith)
            requires
                acc == m / 10,
                d > m % 10,
                m == 10 * (m / 10) + m % 10,
        ;
    }
}

proof fn lemma_digit_fits(acc: int, d: int, m: int)
    requires
        0 <= acc,
        0 <= d <= 9,
        m >= 0,
        acc < m / 10 || (acc == m / 10 && d <= m % 10),
    ensures
        acc * 10 + d <= m,
{
    lemma_fundamental_div_mod(m, 10);
    lemma_mod_bound(m, 10);
    if acc < m / 10 {
        assert(acc * 10 + d <= m) by (nonlinear_arith)
            requires
                acc <= m / 10 - 1,
                m == 10 * (m / 10) + m % 10,
                0 <= m % 10,
                d <= 9,
        ;
    } else {
        assert(acc * 10 + d <= m) by (nonlinear_arith)
            requires
                acc == m / 10,
                d <= m % 10,
                m == 10 * (m / 10) + m % 10,
        ;
    }
}

/// Parse a machine-size count; the value must fit, as std's parser asks.
pub fn parse_usize(s: &str) -> (r: Option<usize>)
    ensures
        match r {
            Some(v) => spec_parse_digits(s@) == Some(v as int),
            None => spec_parse_digits(s@) is None || (spec_parse_digits(s@) matches Some(v) && v
                > usize::MAX),
        },
{
    let n = s.unicode_len();
    if n == 0 {
        return None;
    }
    let mut acc: usize = 0;
    let mut k: usize = 0;
    while k < n
        invariant
            k <= n,
            n == s@.len(),
            1 <= n,
            k > 0 ==> spec_parse_digits(s@.subrange(0, k as int)) == Some(acc as int),
            k == 0 ==> acc == 0,
        decreases n - k,
    {
        let c = s.get_char(k);
        let cu = c as u32;
        if cu < 48 || cu > 57 {
            proof {
                lemma_parse_digits_bad(s@, k as int);
            }
            return None;
        }
        let d = (cu - 48) as usize;
        if acc > usize::MAX / 10 || (acc == usize::MAX / 10 && d > usize::MAX % 10) {
            proof {
                assert(s@.subrange(0, k + 1).drop_last() =~= s@.subrange(0, k as int));
                assert(s@.subrange(0, k + 1).last() == s@[k as int]);
                assert(spec_parse_digits(s@.subrange(0, k + 1)) == Some(
                    (acc as int) * 10 + d as int,
                ));
                lemma_parse_digits_grow(s@, k as int);
                lemma_digit_overflow(acc as int, d as int, usize::MAX as int);
            }
            return None;
        }
        proof {
            lemma_digit_fits(acc as int, d as int, usize::MAX as int);
            assert(s@.subrange(0, k + 1).drop_last() =~= s@.subrange(0, k as int));
            assert(s@.subrange(0, k + 1).last() == s@[k as int]);
        }
        acc = acc * 10 + d;
        k = k + 1;
    }
    proof {
        assert(s@.subrange(0, n as int) =~= s@);
    }
    Some(acc)
}

proof fn lemma_parse_digits_bad(s: Seq<char>, k: int)
    requires
        0 <= k < s.len(),
        !('0' <= s[k] <= '9'),
    ensures
        spec_parse_digits(s.subrange(0, s.len() as int)) is None,
        spec_parse_digits(s) is None,
    decreases s.len(),
{
    assert(s.subrange(0, s.len() as int) =~= s);
    if k < s.len() - 1 {
        assert(s.drop_last()[k] == s[k]);
        lemma_parse_digits_bad(s.drop_last(), k);
    }
}

proof fn lemma_parse_digits_nonneg(s: Seq<char>)
    ensures
        spec_parse_digits(s) matches Some(v) ==> 0 <= v,
    decreases s.len(),
{
    if s.len() > 1 {
        lemma_parse_digits_nonneg(s.drop_last());
        if spec_parse_digits(s) is Some {
            let v = spec_parse_digits(s.drop_last()).unwrap();
            assert(0 <= v * 10) by (nonlinear_arith)
                requires
                    0 <= v,
            ;
        }
    }
}

proof fn lemma_parse_digits_grow(s: Seq<char>, k: int)
    requires
        0 <= k < s.len(),
    ensures
        spec_parse_digits(s) matches Some(v) ==> (spec_parse_digits(s.subrange(0, k + 1))
            matches Some(w) && w <= v),
    decreases s.len() - k,
{
    if k == s.len() - 1 {
        assert(s.subrange(0, k + 1) =~= s);
    } else {
        lemma_parse_digits_grow(s, k + 1);
        if spec_parse_digits(s) is Some {
            assert(s.subrange(0, k + 2).drop_last() =~= s.subrange(0, k + 1));
            let w2 = spec_parse_digits(s.subrange(0, k + 2));
            let w1 = spec_parse_digits(s.subrange(0, k + 1));
            if w2 is Some {
                assert(w1 is Some);
                assert('0' <= s.subrange(0, k + 2).last() <= '9');
                assert(w2.unwrap() == w1.unwrap() * 10 + (s.subrange(0, k + 2).last() as int
                    - '0' as int));
                assert(0 <= w1.unwrap()) by {
                    lemma_parse_digits_nonneg(s.subrange(0, k + 1));
                }
                assert(w1.unwrap() <= w2.unwrap()) by (nonlinear_arith)
                    requires
                        w2.unwrap() == w1.unwrap() * 10 + (s.subrange(0, k + 2).last() as int
                            - '0' as int),
                        0 <= s.subrange(0, k + 2).last() as int - '0' as int,
                        0 <= w1.unwrap(),
                ;
            }
        }
    }
}

// ---------------------------------------------------------------------
// ASCII case folding and substring search.

/// ASCII lower-casing of one character.
pub open spec fn spec_lower_char(c: char) -> char {
    if c == 'A' {
        'a'
    } else if c == 'B' {
        'b'
    } else if c == 'C' {
        'c'
    } else if c == 'D' {
        'd'
    } else if c == 'E' {
        'e'
    } else if c == 'F' {
        'f'
    } else if c == 'G' {
        'g'
    } else if c == 'H' {
        'h'
    } else if c == 'I' {
        'i'
    } else if c == 'J' {
        'j'
    } else if c == 'K' {
        'k'
    } else if c == 'L' {
        'l'
    } else if c == 'M' {
        'm'
    } else if c == 'N' {
        'n'
    } else if c == 'O' {
        'o'
    } else if c == 'P' {
        'p'
    } else if c == 'Q' {
        'q'
    } else if c == 'R' {
        'r'
    } else if c == 'S' {
        's'
    } else if c == 'T' {
        't'
    } else if c == 'U' {
        'u'
    } else if c == 'V' {
        'v'
    } else if c == 'W' {
        'w'
    } else if c == 'X' {
        'x'
    } else if c == 'Y' {
        'y'
    } else if c == 'Z' {
        'z'
    } else {
        c
    }
}

/// ASCII lower-casing of one character.
#[verifier::when_used_as_spec(spec_lower_char)]
pub fn lower_char(c: char) -> (r: char)
    ensures
        r == spec_lower_char(c),
{
    if c == 'A' {
        'a'
    } else if c == 'B' {
        'b'
    } else if c == 'C' {
        'c'
    } else if c == 'D' {
        'd'
    } else if c == 'E' {
        'e'
    } else if c == 'F' {
        'f'
    } else if c == 'G' {
        'g'
    } else if c == 'H' {
        'h'
    } else if c == 'I' {
        'i'
    } else if c == 'J' {
        'j'
    } else if c == 'K' {
        'k'
    } else if c == 'L' {
        'l'
    } else if c == 'M' {
        'm'
    } else if c == 'N' {
        'n'
    } else if c == 'O' {
        'o'
    } else if c == 'P' {
        'p'
    } else if c == 'Q' {
        'q'
    } else if c == 'R' {
        'r'
    } else if c == 'S' {
        's'
    } else if c == 'T' {
        't'
    } else if c == 'U' {
        'u'
    } else if c == 'V' {
        'v'
    } else if c == 'W' {
        'w'
    } else if c == 'X' {
        'x'
    } else if c == 'Y' {
        'y'
    } else if c == 'Z' {
        'z'
    } else {
        c
    }
}

/// The needle, ASCII-lower-cased, occurs in the haystack at `i`; the
/// haystack is lower-cased too when `fold_hay` is set.
pub open spec fn spec_match_at(
    hay: Seq<char>,
    needle: Seq<char>,
    i: int,
    fold_hay: bool,
) -> bool {
    &&& 0 <= i
    &&& i + needle.len() <= hay.len()
    &&& forall|k: int|
        0 <= k < needle.len() ==> (if fold_hay {
            spec_lower_char(hay[i + k])
        } else {
            hay[i + k]
        }) == spec_lower_char(#[trigger] needle[k])
}

/// The needle, ASCII-lower-cased, occurs somewhere in the haystack.
pub open spec fn spec_contains_fold(hay: Seq<char>, needle: Seq<char>, fold_hay: bool) -> bool {
    exists|i: int| spec_match_at(hay, needle, i, fold_hay)
}

/// Substring search with ASCII case folding of the needle, and of the
/// haystack too when `fold_hay` is set.
pub fn contains_fold(hay: &str, needle: &str, fold_hay: bool) -> (r: bool)
    ensures
        r == spec_contains_fold(hay@, needle@, fold_hay),
{
    let n = hay.unicode_len();
    let m = needle.unicode_len();
    if m > n {
        proof {
            assert forall|i: int| !spec_match_at(hay@, needle@, i, fold_hay) by {}
        }
        return false;
    }
    let mut i: usize = 0;
    while i <= n - m
        invariant
            m <= n,
            n == hay@.len(),
            m == needle@.len(),
            i <= n - m + 1,
            forall|t: int| 0 <= t < i ==> !spec_match_at(hay@, needle@, t, fold_hay),
        decreases n - m + 1 - i,
    {
        let mut k: usize = 0;
        let mut ok = true;
        while k < m && ok
            invariant
                i + m <= n,
                n == hay@.len(),
                m == needle@.len(),
                k <= m,
                ok ==> forall|t: int|
                    0 <= t < k ==> (if fold_hay {
                        spec_lower_char(hay@[i + t])
                    } else {
                        hay@[i + t]
                    }) == spec_lower_char(#[trigger] needle@[t]),
                !ok ==> !spec_match_at(hay@, needle@, i as int, fold_hay),
            decreases (if ok {
                1int
            } else {
                0int
            }), m - k,
        {
            let hc = hay.get_char(i + k);
            let hcf = if fold_hay {
                lower_char(hc)
            } else {
                hc
            };
            if hcf != lower_char(needle.get_char(k)) {
                ok = false;
                proof {
                    assert(!spec_match_at(hay@, needle@, i as int, fold_hay));
                }
            } else {
                k = k + 1;
            }
        }
        if ok {
            proof {
                assert(spec_match_at(hay@, needle@, i as int, fold_hay));
            }
            return true;
        }
        i = i + 1;
    }
    proof {
        assert forall|t: int| !spec_match_at(hay@, needle@, t, fold_hay) by {
            if 0 <= t <= n - m {
                assert(!spec_match_at(hay@, needle@, t, fold_hay));
            }
        }
    }
    false
}

/// Equality up to ASCII case.
pub open spec fn spec_eq_ignore_case(a: Seq<char>, b: Seq<char>) -> bool {
    a.len() == b.len() && forall|k: int|
        0 <= k < a.len() ==> spec_lower_char(#[trigger] a[k]) == spec_lower_char(b[k])
}

/// Decide equality up to ASCII case.
pub fn eq_ignore_case(a: &str, b: &str) -> (r: bool)
    ensures
        r == spec_eq_ignore_case(a@, b@),
{
    let n = a.unicode_len();
    if n != b.unicode_len() {
        return false;
    }
    let mut k: usize = 0;
    while k < n
        invariant
            k <= n,
            n == a@.len(),
            n == b@.len(),
            forall|t: int| 0 <= t < k ==> spec_lower_char(#[trigger] a@[t]) == spec_lower_char(
                b@[t],
            ),
        decreases n - k,
    {
        if lower_char(a.get_char(k)) != lower_char(b.get_char(k)) {
            return false;
        }
        k = k + 1;
    }
    true
}

/// Decide equality of two strings.
pub fn str_eq(a: &str, b: &str) -> (r: bool)
    ensures
        r == (a@ == b@),
{
    let n = a.unicode_len();
    if n != b.unicode_len() {
        return false;
    }
    let mut k: usize = 0;
    while k < n
        invariant
            k <= n,
            n == a@.len(),
            n == b@.len(),
            forall|t: int| 0 <= t < k ==> a@[t] == b@[t],
        decreases n - k,
    {
        if a.get_char(k) != b.get_char(k) {
            return false;
        }
        k = k + 1;
    }
    proof {
        assert(a@ =~= b@);
    }
    true
}

/// The HTML rendering of one character: the five special characters
/// become entities, every other character stands as itself.
pub open spec fn spec_escape_char(c: char) -> Seq<char> {
    if c == '&' {
        "&amp;"@
    } else if c == '<' {
        "&lt;"@
    } else if c == '>' {
        "&gt;"@
    } else if c == '"' {
        "&quot;"@
    } else if c == '\'' {
        "&#39;"@
    } else {
        seq![c]
    }
}

/// The HTML-escaped form of the first `n` characters.
pub open spec fn spec_escape(s: Seq<char>, n: int) -> Seq<char>
    decreases n,
{
    if n <= 0 {
        Seq::empty()
    } else {
        spec_escape(s, n - 1) + spec_escape_char(s[n - 1])
    }
}

/// Escape text for safe embedding in HTML.
pub fn escape_html(s: &str) -> (r: String)
    ensures
        r@ == spec_escape(s@, s@.len() as int),
{
    let n = s.unicode_len();
    let mut r = String::new();
    for i in 0..n
        invariant
            n == s@.len(),
            r@ == spec_escape(s@, i as int),
    {
        let c = s.get_char(i);
        if c == '&' {
            r.append("&amp;");
        } else if c == '<' {
            r.append("&lt;");
        } else if c == '>' {
            r.append("&gt;");
        } else if c == '"' {
            r.append("&quot;");
        } else if c == '\'' {
            r.append("&#39;");
        } else {
            let piece = s.substring_char(i, i + 1);
            proof {
                assert(piece@ =~= seq![s@[i as int]]);
            }
            r.append(piece);
        }
        proof {
            assert(r@ =~= spec_escape(s@, i + 1));
        }
    }
    r
}

} // verus!
