//! Character-level text helpers: white space, trimming, word splitting,
//! decimal formatting and integer parsing, all stated over `Seq<char>`.
use vstd::prelude::*;

verus! {

/// Unicode `White_Space` code points, as `char::is_whitespace` classifies them.
pub open spec fn is_ws(c: char) -> bool {
    let u = c as u32;
    (0x09 <= u && u <= 0x0d) || u == 0x20 || u == 0x85 || u == 0xa0 || u == 0x1680 || (0x2000
        <= u && u <= 0x200a) || u == 0x2028 || u == 0x2029 || u == 0x202f || u == 0x205f || u
        == 0x3000
}

/// Whether `c` is a Unicode white-space character.
pub fn is_whitespace(c: char) -> (r: bool)
    ensures
        r == is_ws(c),
{
    let u = c as u32;
    (0x09 <= u && u <= 0x0d) || u == 0x20 || u == 0x85 || u == 0xa0 || u == 0x1680 || (0x2000
        <= u && u <= 0x200a) || u == 0x2028 || u == 0x2029 || u == 0x202f || u == 0x205f || u
        == 0x3000
}

/// `s` without its leading white space.
pub open spec fn trim_start(s: Seq<char>) -> Seq<char>
    decreases s.len(),
{
    if s.len() > 0 && is_ws(s[0]) {
        trim_start(s.subrange(1, s.len() as int))
    } else {
        s
    }
}

/// `s` without its trailing white space.
pub open spec fn trim_end(s: Seq<char>) -> Seq<char>
    decreases s.len(),
{
    if s.len() > 0 && is_ws(s.last()) {
        trim_end(s.drop_last())
    } else {
        s
    }
}

/// `s` without leading and trailing white space (`str::trim`).
pub open spec fn trim(s: Seq<char>) -> Seq<char> {
    trim_end(trim_start(s))
}

/// `s` with no white space at all in it.
pub open spec fn no_ws(s: Seq<char>) -> bool {
    forall|i: int| 0 <= i < s.len() ==> !is_ws(#[trigger] s[i])
}

/// The length of the leading run of non-white-space characters of `s`.
pub open spec fn word_len(s: Seq<char>) -> nat
    decreases s.len(),
{
    if s.len() > 0 && !is_ws(s[0]) {
        1 + word_len(s.subrange(1, s.len() as int))
    } else {
        0
    }
}

/// The white-space separated words of `s` (`str::split_whitespace`).
pub open spec fn words(s: Seq<char>) -> Seq<Seq<char>>
    decreases s.len(),
{
    if s.len() == 0 {
        seq![]
    } else if is_ws(s[0]) {
        words(s.subrange(1, s.len() as int))
    } else {
        let n = word_len(s);
        if n >= s.len() {
            seq![s]
        } else {
            seq![s.subrange(0, n as int)] + words(s.subrange(n as int, s.len() as int))
        }
    }
}

/// The parts of `parts` joined by `sep` (`[String]::join`).
pub open spec fn join(parts: Seq<Seq<char>>, sep: Seq<char>) -> Seq<char>
    decreases parts.len(),
{
    if parts.len() == 0 {
        seq![]
    } else if parts.len() == 1 {
        parts[0]
    } else {
        join(parts.drop_last(), sep) + sep + parts.last()
    }
}

/// The characters of a string slice.
pub fn chars_of(s: &str) -> (v: Vec<char>)
    ensures
        v@ == s@,
{
    let mut v: Vec<char> = Vec::new();
    for c in it: s.chars()
        invariant
            v@ == it.seq().take(it.index() as int),
    {
        v.push(c);
    }
    v
}

/// Appends one character to a string (`String::push`).
#[verifier::external_body]
fn push_char(s: &mut String, c: char)
    ensures
        final(s)@ == old(s)@.push(c),
{
    s.push(c);
}

/// The string made of the characters of `v`.
pub fn string_of(v: &[char]) -> (s: String)
    ensures
        s@ == v@,
{
    let mut s = String::new();
    let mut i: usize = 0;
    while i < v.len()
        invariant
            i <= v.len(),
            s@ == v@.take(i as int),
        decreases v.len() - i,
    {
        push_char(&mut s, v[i]);
        assert(v@.take(i as int).push(v@[i as int]) =~= v@.take(i + 1));
        i = i + 1;
    }
    assert(v@.take(v.len() as int) =~= v@);
    s
}

/// The string with the characters of `s` (a copy of a slice).
pub fn owned(s: &str) -> (r: String)
    ensures
        r@ == s@,
{
    let v = chars_of(s);
    string_of(v.as_slice())
}

/// Whether two character sequences are equal.
pub fn chars_eq(a: &[char], b: &[char]) -> (r: bool)
    ensures
        r == (a@ == b@),
{
    if a.len() != b.len() {
        return false;
    }
    let mut i: usize = 0;
    while i < a.len()
        invariant
            a.len() == b.len(),
            i <= a.len(),
            forall|k: int| 0 <= k < i ==> a@[k] == b@[k],
        decreases a.len() - i,
    {
        if a[i] != b[i] {
            return false;
        }
        i = i + 1;
    }
    assert(a@ =~= b@);
    true
}

/// Whether the characters `a` spell the string `b`.
pub fn eq_str(a: &[char], b: &str) -> (r: bool)
    ensures
        r == (a@ == b@),
{
    let bv = chars_of(b);
    chars_eq(a, bv.as_slice())
}

/// Whether two strings are equal.
pub fn str_eq(a: &str, b: &str) -> (r: bool)
    ensures
        r == (a@ == b@),
{
    let av = chars_of(a);
    eq_str(av.as_slice(), b)
}

/// Whether `s` starts with `prefix`.
pub fn starts_with(s: &[char], prefix: &str) -> (r: bool)
    ensures
        r == (prefix@.len() <= s@.len() && s@.subrange(0, prefix@.len() as int) == prefix@),
{
    let p = chars_of(prefix);
    if p.len() > s.len() {
        return false;
    }
    let mut i: usize = 0;
    while i < p.len()
        invariant
            p@ == prefix@,
            p.len() <= s.len(),
            i <= p.len(),
            forall|k: int| 0 <= k < i ==> s@[k] == p@[k],
        decreases p.len() - i,
    {
        if s[i] != p[i] {
            assert(s@.subrange(0, p@.len() as int)[i as int] != p@[i as int]);
            assert(s@.subrange(0, p@.len() as int) != p@);
            return false;
        }
        i = i + 1;
    }
    assert(s@.subrange(0, p@.len() as int) =~= p@);
    true
}

/// Whether `s` ends with `suffix`.
pub fn ends_with(s: &[char], suffix: &str) -> (r: bool)
    ensures
        r == (suffix@.len() <= s@.len() && s@.subrange(
            s@.len() - suffix@.len(),
            s@.len() as int,
        ) == suffix@),
{
    let p = chars_of(suffix);
    if p.len() > s.len() {
        return false;
    }
    let off = s.len() - p.len();
    let mut i: usize = 0;
    while i < p.len()
        invariant
            p@ == suffix@,
            p.len() <= s.len(),
            off == s.len() - p.len(),
            i <= p.len(),
            forall|k: int| 0 <= k < i ==> s@[off + k] == p@[k],
        decreases p.len() - i,
    {
        if s[off + i] != p[i] {
            assert(s@.subrange(off as int, s@.len() as int)[i as int] != p@[i as int]);
            assert(s@.subrange(off as int, s@.len() as int) != p@);
            return false;
        }
        i = i + 1;
    }
    assert(s@.subrange(off as int, s@.len() as int) =~= p@);
    true
}

/// The characters of `s` from `start` to `end`.
pub fn slice_vec(s: &[char], start: usize, end: usize) -> (r: Vec<char>)
    requires
        start <= end <= s.len(),
    ensures
        r@ == s@.subrange(start as int, end as int),
{
    let mut r: Vec<char> = Vec::new();
    let mut i = start;
    while i < end
        invariant
            start <= i <= end <= s.len(),
            r@ == s@.subrange(start as int, i as int),
        decreases end - i,
    {
        r.push(s[i]);
        assert(s@.subrange(start as int, i as int).push(s@[i as int]) =~= s@.subrange(
            start as int,
            i + 1,
        ));
        i = i + 1;
    }
    r
}

proof fn lemma_trim_start_step(s: Seq<char>, i: int)
    requires
        0 <= i < s.len(),
        is_ws(s[i]),
    ensures
        trim_start(s.subrange(i, s.len() as int)) == trim_start(s.subrange(i + 1, s.len() as int)),
{
    let t = s.subrange(i, s.len() as int);
    assert(t.subrange(1, t.len() as int) =~= s.subrange(i + 1, s.len() as int));
}

proof fn lemma_trim_end_step(s: Seq<char>, j: int)
    requires
        0 < j <= s.len(),
        is_ws(s[j - 1]),
    ensures
        trim_end(s.subrange(0, j)) == trim_end(s.subrange(0, j - 1)),
{
    let t = s.subrange(0, j);
    assert(t.drop_last() =~= s.subrange(0, j - 1));
}

/// The start and end of `trim(s)` inside `s`.
pub fn trim_bounds(s: &[char]) -> (r: (usize, usize))
    ensures
        r.0 <= r.1 <= s@.len(),
        trim(s@) == s@.subrange(r.0 as int, r.1 as int),
{
    let n = s.len();
    let mut i: usize = 0;
    assert(s@.subrange(0, n as int) =~= s@);
    while i < n && is_whitespace(s[i])
        invariant
            i <= n == s.len(),
            trim_start(s@) == trim_start(s@.subrange(i as int, n as int)),
        decreases n - i,
    {
        proof {
            lemma_trim_start_step(s@, i as int);
        }
        i = i + 1;
    }
    let ghost t = s@.subrange(i as int, n as int);
    assert(trim_start(s@) == t);
    let mut j: usize = n;
    assert(t.subrange(0, (n - i) as int) =~= t);
    while j > i && is_whitespace(s[j - 1])
        invariant
            i <= j <= n == s.len(),
            t == s@.subrange(i as int, n as int),
            trim_end(t) == trim_end(t.subrange(0, (j - i) as int)),
        decreases j,
    {
        proof {
            lemma_trim_end_step(t, (j - i) as int);
        }
        j = j - 1;
    }
    assert(t.subrange(0, (j - i) as int) =~= s@.subrange(i as int, j as int));
    (i, j)
}

/// `s` with its leading and trailing white space removed (`str::trim`).
pub fn trim_chars(s: &[char]) -> (r: Vec<char>)
    ensures
        r@ == trim(s@),
{
    let (i, j) = trim_bounds(s);
    slice_vec(s, i, j)
}

/// The trimmed characters of a string slice.
pub fn trimmed(s: &str) -> (r: Vec<char>)
    ensures
        r@ == trim(s@),
{
    let v = chars_of(s);
    trim_chars(v.as_slice())
}

proof fn lemma_word_len_bound(s: Seq<char>)
    ensures
        word_len(s) <= s.len(),
        forall|k: int| 0 <= k < word_len(s) ==> !is_ws(#[trigger] s[k]),
        word_len(s) < s.len() ==> is_ws(s[word_len(s) as int]),
    decreases s.len(),
{
    if s.len() > 0 && !is_ws(s[0]) {
        let t = s.subrange(1, s.len() as int);
        lemma_word_len_bound(t);
        assert forall|k: int| 0 <= k < word_len(s) implies !is_ws(#[trigger] s[k]) by {
            if k > 0 {
                assert(s[k] == t[k - 1]);
            }
        }
    }
}

proof fn lemma_word_len_from(s: Seq<char>, i: int, j: int)
    requires
        0 <= i <= j <= s.len(),
        forall|k: int| i <= k < j ==> !is_ws(#[trigger] s[k]),
        j == s.len() || is_ws(s[j]),
    ensures
        word_len(s.subrange(i, s.len() as int)) == j - i,
    decreases j - i,
{
    let t = s.subrange(i, s.len() as int);
    if i < j {
        lemma_word_len_from(s, i + 1, j);
        assert(t.subrange(1, t.len() as int) =~= s.subrange(i + 1, s.len() as int));
    }
}

/// The white-space separated words of `s` (`str::split_whitespace`).
pub fn split_words(s: &[char]) -> (r: Vec<Vec<char>>)
    ensures
        r@.map_values(|w: Vec<char>| w@) == words(s@),
{
    let n = s.len();
    let mut r: Vec<Vec<char>> = Vec::new();
    let mut i: usize = 0;
    assert(s@.subrange(0, n as int) =~= s@);
    while i < n
        invariant
            i <= n == s.len(),
            words(s@) == r@.map_values(|w: Vec<char>| w@) + words(
                s@.subrange(i as int, n as int),
            ),
        decreases n - i,
    {
        let ghost rest = s@.subrange(i as int, n as int);
        if is_whitespace(s[i]) {
            assert(rest.subrange(1, rest.len() as int) =~= s@.subrange(i + 1, n as int));
            i = i + 1;
        } else {
            let mut j = i + 1;
            while j < n && !is_whitespace(s[j])
                invariant
                    i < j <= n == s.len(),
                    forall|k: int| i <= k < j ==> !is_ws(#[trigger] s@[k]),
                decreases n - j,
            {
                j = j + 1;
            }
            proof {
                lemma_word_len_from(s@, i as int, j as int);
            }
            let w = slice_vec(s, i, j);
            let ghost before = r@.map_values(|w: Vec<char>| w@);
            r.push(w);
            assert(r@.map_values(|w: Vec<char>| w@) =~= before.push(w@));
            if j >= n {
                assert(rest =~= s@.subrange(i as int, j as int));
                assert(s@.subrange(j as int, n as int) =~= Seq::<char>::empty());
                assert(words(s@.subrange(j as int, n as int)) =~= Seq::<Seq<char>>::empty());
            } else {
                assert(rest.subrange(0, (j - i) as int) =~= s@.subrange(i as int, j as int));
                assert(rest.subrange((j - i) as int, rest.len() as int) =~= s@.subrange(
                    j as int,
                    n as int,
                ));
            }
            assert(words(rest) =~= seq![w@] + words(s@.subrange(j as int, n as int)));
            i = j;
        }
    }
    assert(s@.subrange(n as int, n as int) =~= Seq::<char>::empty());
    assert(r@.map_values(|w: Vec<char>| w@) + Seq::<Seq<char>>::empty() =~= r@.map_values(
        |w: Vec<char>| w@,
    ));
    r
}


/// Whether `c` is an ASCII decimal digit.
pub open spec fn is_digit(c: char) -> bool {
    '0' <= c && c <= '9'
}

/// The value of an ASCII decimal digit.
pub open spec fn digit_value(c: char) -> int {
    c as int - '0' as int
}

/// The ASCII digit for a value in `0..10`.
pub open spec fn digit_char(d: int) -> char {
    (d + '0' as int) as char
}

/// The decimal digits of `n`, most significant first, with no leading zero.
pub open spec fn nat_digits(n: nat) -> Seq<char>
    decreases n,
{
    if n < 10 {
        seq![digit_char(n as int)]
    } else {
        nat_digits(n / 10).push(digit_char((n % 10) as int))
    }
}

/// The decimal representation of `n` (`Display` for integers).
pub open spec fn decimal(n: int) -> Seq<char> {
    if n < 0 {
        seq!['-'] + nat_digits((-n) as nat)
    } else {
        nat_digits(n as nat)
    }
}

/// The decimal representation of `n`, padded with a zero to two digits (`{:02}`).
pub open spec fn two_digits(n: nat) -> Seq<char> {
    if n < 10 {
        seq!['0', digit_char(n as int)]
    } else {
        nat_digits(n)
    }
}

/// The number of bytes of a character in UTF-8.
pub open spec fn utf8_width(c: char) -> nat {
    if (c as u32) < 0x80 {
        1
    } else if (c as u32) < 0x800 {
        2
    } else if (c as u32) < 0x10000 {
        3
    } else {
        4
    }
}

/// The number of bytes of a string in UTF-8 (`str::len`).
pub open spec fn utf8_len(s: Seq<char>) -> nat
    decreases s.len(),
{
    if s.len() == 0 {
        0
    } else {
        utf8_width(s[0]) + utf8_len(s.drop_first())
    }
}

/// Whether a string takes exactly `n` bytes in UTF-8.
pub fn utf8_len_is(s: &[char], n: usize) -> (r: bool)
    ensures
        r == (utf8_len(s@) == n),
{
    let mut acc: usize = 0;
    let mut i: usize = 0;
    assert(s@.skip(0) =~= s@);
    while i < s.len()
        invariant
            i <= s.len(),
            acc <= n,
            utf8_len(s@) == acc + utf8_len(s@.skip(i as int)),
        decreases s.len() - i,
    {
        assert(s@.skip(i as int).drop_first() =~= s@.skip(i + 1));
        let c = s[i] as u32;
        let w: usize = if c < 0x80 {
            1
        } else if c < 0x800 {
            2
        } else if c < 0x10000 {
            3
        } else {
            4
        };
        if w > n - acc {
            return false;
        }
        acc = acc + w;
        i = i + 1;
    }
    assert(s@.skip(i as int).len() == 0);
    acc == n
}

/// Whether every character of `s` is a decimal digit.
pub open spec fn all_digits(s: Seq<char>) -> bool {
    forall|i: int| 0 <= i < s.len() ==> is_digit(#[trigger] s[i])
}

/// The value of a string of decimal digits.
pub open spec fn digits_value(s: Seq<char>) -> int
    decreases s.len(),
{
    if s.len() == 0 {
        0
    } else {
        digits_value(s.drop_last()) * 10 + digit_value(s.last())
    }
}

/// The integer that `s` spells in `str::parse` for signed integers: an optional
/// `+` or `-` followed by one or more decimal digits; `None` otherwise.
pub open spec fn parse_int(s: Seq<char>) -> Option<int> {
    if s.len() == 0 {
        None
    } else {
        let neg = s[0] == '-';
        let d = if s[0] == '-' || s[0] == '+' {
            s.subrange(1, s.len() as int)
        } else {
            s
        };
        if d.len() > 0 && all_digits(d) {
            Some(
                if neg {
                    -digits_value(d)
                } else {
                    digits_value(d)
                },
            )
        } else {
            None
        }
    }
}

/// What `str::parse::<i64>` gives for `s`.
pub open spec fn parse_i64_spec(s: Seq<char>) -> Option<i64> {
    match parse_int(s) {
        Some(v) => if i64::MIN <= v <= i64::MAX {
            Some(v as i64)
        } else {
            None
        },
        None => None,
    }
}

/// What `str::parse::<i32>` gives for `s`.
pub open spec fn parse_i32_spec(s: Seq<char>) -> Option<i32> {
    match parse_int(s) {
        Some(v) => if i32::MIN <= v <= i32::MAX {
            Some(v as i32)
        } else {
            None
        },
        None => None,
    }
}

pub(crate) proof fn lemma_digits_value_nonneg(s: Seq<char>)
    requires
        all_digits(s),
    ensures
        digits_value(s) >= 0,
    decreases s.len(),
{
    if s.len() > 0 {
        lemma_digits_value_nonneg(s.drop_last());
    }
}

proof fn lemma_digits_value_prefix(s: Seq<char>, k: int)
    requires
        all_digits(s),
        0 <= k <= s.len(),
    ensures
        digits_value(s) >= digits_value(s.take(k)),
    decreases s.len(),
{
    if k < s.len() {
        assert(s.drop_last().take(k) =~= s.take(k));
        lemma_digits_value_prefix(s.drop_last(), k);
        lemma_digits_value_nonneg(s.drop_last());
    } else {
        assert(s.take(k) =~= s);
    }
}

/// The integer spelled by the decimal digits `d` (all digits, at least one),
/// negated when `neg`, as an `i64`; `None` when it does not fit.
fn digits_to_i64(d: &[char], neg: bool) -> (r: Option<i64>)
    requires
        d@.len() > 0,
    ensures
        r == (if all_digits(d@) {
            let v = if neg {
                -digits_value(d@)
            } else {
                digits_value(d@)
            };
            if i64::MIN <= v <= i64::MAX {
                Some(v as i64)
            } else {
                None::<i64>
            }
        } else {
            None::<i64>
        }),
{
    let mut acc: i128 = 0;
    let mut i: usize = 0;
    while i < d.len()
        invariant
            i <= d.len(),
            all_digits(d@.take(i as int)),
            acc == digits_value(d@.take(i as int)),
            0 <= acc <= 0x8000_0000_0000_0000,
        decreases d.len() - i,
    {
        let c = d[i];
        if !('0' <= c && c <= '9') {
            assert(!is_digit(d@[i as int]));
            return None;
        }
        assert(d@.take(i + 1).drop_last() =~= d@.take(i as int));
        acc = acc * 10 + (c as u32 - '0' as u32) as i128;
        assert(all_digits(d@.take(i + 1)));
        if acc > 0x8000_0000_0000_0000 {
            let mut k = i + 1;
            while k < d.len()
                invariant
                    i < k <= d.len(),
                    all_digits(d@.take(k as int)),
                decreases d.len() - k,
            {
                if !('0' <= d[k] && d[k] <= '9') {
                    assert(!is_digit(d@[k as int]));
                    return None;
                }
                assert(all_digits(d@.take(k + 1)));
                k = k + 1;
            }
            assert(d@.take(d.len() as int) =~= d@);
            proof {
                lemma_digits_value_prefix(d@, i + 1);
            }
            return None;
        }
        i = i + 1;
    }
    assert(d@.take(d.len() as int) =~= d@);
    if neg {
        Some((-acc) as i64)
    } else if acc <= 0x7fff_ffff_ffff_ffff {
        Some(acc as i64)
    } else {
        None
    }
}

/// Parses a signed decimal integer (`str::parse::<i64>`).
pub fn parse_i64(s: &[char]) -> (r: Option<i64>)
    ensures
        r == parse_i64_spec(s@),
{
    if s.len() == 0 {
        return None;
    }
    let neg = s[0] == '-';
    let start: usize = if s[0] == '-' || s[0] == '+' {
        1
    } else {
        0
    };
    if start >= s.len() {
        return None;
    }
    let d = slice_vec(s, start, s.len());
    assert(start == 0 ==> d@ =~= s@);
    digits_to_i64(d.as_slice(), neg)
}

/// Parses a signed decimal integer (`str::parse::<i32>`).
pub fn parse_i32(s: &[char]) -> (r: Option<i32>)
    ensures
        r == parse_i32_spec(s@),
{
    match parse_i64(s) {
        Some(v) => if i32::MIN as i64 <= v && v <= i32::MAX as i64 {
            Some(v as i32)
        } else {
            None
        },
        None => None,
    }
}

proof fn lemma_nat_digits_props(n: nat)
    ensures
        nat_digits(n).len() > 0,
        all_digits(nat_digits(n)),
        digits_value(nat_digits(n)) == n,
    decreases n,
{
    if n >= 10 {
        lemma_nat_digits_props(n / 10);
        let s = nat_digits(n);
        assert(s.drop_last() =~= nat_digits(n / 10));
        assert(digit_value(s.last()) == n % 10);
        assert(n == (n / 10) * 10 + n % 10);
        assert(digits_value(s.drop_last()) == n / 10);
        assert(digits_value(s) == digits_value(s.drop_last()) * 10 + digit_value(s.last()));
    } else {
        let s = nat_digits(n);
        assert(s.drop_last() =~= Seq::<char>::empty());
        assert(digits_value(s.drop_last()) == 0);
        assert(digit_value(s.last()) == n);
        assert forall|i: int| 0 <= i < s.len() implies is_digit(#[trigger] s[i]) by {
            if i < s.len() - 1 {
                assert(s[i] == nat_digits(n / 10)[i]);
            }
        }
    }
}

/// Reading back the decimal representation of an integer gives the integer.
pub proof fn lemma_parse_decimal(n: int)
    ensures
        parse_int(decimal(n)) == Some(n),
{
    let m: nat = if n < 0 {
        (-n) as nat
    } else {
        n as nat
    };
    lemma_nat_digits_props(m);
    let d = nat_digits(m);
    assert(is_digit(d[0]));
    if n < 0 {
        let s = decimal(n);
        assert(s.subrange(1, s.len() as int) =~= d);
    }
}

/// Reading back the decimal representation of an `i32` gives the `i32`.
pub proof fn lemma_parse_i32_decimal(n: i32)
    ensures
        parse_i32_spec(decimal(n as int)) == Some(n),
{
    lemma_parse_decimal(n as int);
}

/// The decimal representation of a non-negative integer.
pub fn nat_to_chars(n: u64) -> (r: Vec<char>)
    ensures
        r@ == nat_digits(n as nat),
{
    let mut rev: Vec<char> = Vec::new();
    let mut q = n;
    let ghost tail: Seq<char> = Seq::empty();
    while q >= 10
        invariant
            nat_digits(n as nat) == nat_digits(q as nat) + rev@.reverse(),
        decreases q,
    {
        let c = ((q % 10) as u8 + 48u8) as char;
        assert(c == digit_char((q % 10) as int));
        let ghost old_rev = rev@;
        rev.push(c);
        assert(rev@.reverse() =~= seq![c] + old_rev.reverse());
        assert(nat_digits(q as nat) == nat_digits((q / 10) as nat).push(c));
        assert(nat_digits((q / 10) as nat).push(c) + old_rev.reverse() =~= nat_digits(
            (q / 10) as nat,
        ) + (seq![c] + old_rev.reverse()));
        q = q / 10;
    }
    let mut r: Vec<char> = Vec::new();
    let c0 = ((q as u8) + 48u8) as char;
    r.push(c0);
    assert(r@ =~= nat_digits(q as nat));
    let mut k = rev.len();
    while k > 0
        invariant
            k <= rev.len(),
            r@ + rev@.take(k as int).reverse() == nat_digits(n as nat),
        decreases k,
    {
        let ghost old_r = r@;
        r.push(rev[k - 1]);
        assert(rev@.take(k as int).reverse() =~= seq![rev@[k - 1]] + rev@.take(
            k - 1,
        ).reverse());
        assert(old_r + rev@.take(k as int).reverse() =~= r@ + rev@.take(k - 1).reverse());
        k = k - 1;
    }
    assert(rev@.take(0).reverse() =~= Seq::<char>::empty());
    assert(r@ + Seq::<char>::empty() =~= r@);
    r
}

/// The decimal representation of an integer.
pub fn int_to_chars(n: i64) -> (r: Vec<char>)
    ensures
        r@ == decimal(n as int),
{
    if n < 0 {
        let m: u64 = if n == i64::MIN {
            0x8000_0000_0000_0000u64
        } else {
            (-n) as u64
        };
        let digits = nat_to_chars(m);
        let mut r: Vec<char> = Vec::new();
        r.push('-');
        let mut i: usize = 0;
        while i < digits.len()
            invariant
                i <= digits.len(),
                r@ == seq!['-'] + digits@.take(i as int),
            decreases digits.len() - i,
        {
            r.push(digits[i]);
            assert(seq!['-'] + digits@.take(i + 1) =~= (seq!['-'] + digits@.take(i as int)).push(
                digits@[i as int],
            ));
            i = i + 1;
        }
        assert(digits@.take(digits.len() as int) =~= digits@);
        r
    } else {
        nat_to_chars(n as u64)
    }
}

/// A number padded with a zero to two digits (`{:02}`).
pub fn two_digit_chars(n: u32) -> (r: Vec<char>)
    ensures
        r@ == two_digits(n as nat),
{
    if n < 10 {
        let mut r: Vec<char> = Vec::new();
        r.push('0');
        r.push(((n as u8) + 48u8) as char);
        assert(r@ =~= two_digits(n as nat));
        r
    } else {
        nat_to_chars(n as u64)
    }
}

/// `a` followed by `b`.
pub fn concat(a: &[char], b: &[char]) -> (r: Vec<char>)
    ensures
        r@ == a@ + b@,
{
    let mut r = slice_vec(a, 0, a.len());
    assert(a@.subrange(0, a@.len() as int) =~= a@);
    let mut i: usize = 0;
    while i < b.len()
        invariant
            i <= b.len(),
            r@ == a@ + b@.take(i as int),
        decreases b.len() - i,
    {
        r.push(b[i]);
        assert(a@ + b@.take(i + 1) =~= (a@ + b@.take(i as int)).push(b@[i as int]));
        i = i + 1;
    }
    assert(b@.take(b.len() as int) =~= b@);
    r
}


proof fn lemma_word_len_no_ws(s: Seq<char>, n: int)
    requires
        0 <= n <= s.len(),
        forall|k: int| 0 <= k < n ==> !is_ws(#[trigger] s[k]),
        n == s.len() || is_ws(s[n]),
    ensures
        word_len(s) == n,
{
    lemma_word_len_from(s, 0, n);
    assert(s.subrange(0, s.len() as int) =~= s);
}

/// A non-empty word without white space splits into itself.
pub proof fn lemma_words_single(a: Seq<char>)
    requires
        a.len() > 0,
        no_ws(a),
    ensures
        words(a) == seq![a],
{
    lemma_word_len_no_ws(a, a.len() as int);
}

/// A word followed by a space and more text splits into the word and the
/// words of the rest.
pub proof fn lemma_words_cons(a: Seq<char>, rest: Seq<char>)
    requires
        a.len() > 0,
        no_ws(a),
    ensures
        words(a + " "@ + rest) == seq![a] + words(rest),
{
    reveal_strlit(" ");
    let s = a + " "@ + rest;
    assert(s[a.len() as int] == ' ');
    assert forall|k: int| 0 <= k < a.len() implies !is_ws(#[trigger] s[k]) by {
        assert(s[k] == a[k]);
    }
    lemma_word_len_no_ws(s, a.len() as int);
    assert(s.subrange(0, a.len() as int) =~= a);
    let t = s.subrange(a.len() as int, s.len() as int);
    assert(t[0] == ' ');
    assert(is_ws(t[0]));
    assert(t.subrange(1, t.len() as int) =~= rest);
    assert(words(t) == words(rest));
    assert(!is_ws(s[0]));
    assert(word_len(s) < s.len());
    assert(words(s) == seq![s.subrange(0, a.len() as int)] + words(t));
}

/// A string without white space is its own trim.
pub proof fn lemma_trim_no_ws(a: Seq<char>)
    requires
        no_ws(a),
    ensures
        trim(a) == a,
{
    if a.len() > 0 {
        assert(!is_ws(a[0]));
        assert(!is_ws(a.last()));
    }
}

/// The decimal representation of an integer is a non-empty word.
pub proof fn lemma_decimal_is_word(n: int)
    ensures
        decimal(n).len() > 0,
        no_ws(decimal(n)),
{
    let m: nat = if n < 0 {
        (-n) as nat
    } else {
        n as nat
    };
    lemma_nat_digits_props(m);
    let d = nat_digits(m);
    let s = decimal(n);
    assert forall|i: int| 0 <= i < s.len() implies !is_ws(#[trigger] s[i]) by {
        if n < 0 {
            if i > 0 {
                assert(s[i] == d[i - 1]);
                assert(is_digit(d[i - 1]));
            }
        } else {
            assert(is_digit(d[i]));
        }
    }
}


proof fn lemma_word_len_prefix(x: Seq<char>, y: Seq<char>)
    requires
        y.len() > 0 ==> is_ws(y[0]),
    ensures
        word_len(x + y) == word_len(x),
{
    lemma_word_len_bound(x);
    let n = word_len(x) as int;
    let s = x + y;
    assert forall|k: int| 0 <= k < n implies !is_ws(#[trigger] s[k]) by {
        assert(s[k] == x[k]);
    }
    if n < x.len() {
        assert(s[n] == x[n]);
    } else if y.len() > 0 {
        assert(s[n] == y[0]);
    } else {
        assert(s =~= x);
    }
    lemma_word_len_no_ws(s, n);
}

/// Appending a space and a word to a text adds that word to its words.
pub proof fn lemma_words_snoc(x: Seq<char>, w: Seq<char>)
    requires
        w.len() > 0,
        no_ws(w),
    ensures
        words(x + " "@ + w) == words(x) + seq![w],
    decreases x.len(),
{
    reveal_strlit(" ");
    let sw = " "@ + w;
    assert(sw[0] == ' ');
    assert(is_ws(sw[0]));
    let s = x + sw;
    assert(x + " "@ + w =~= s);
    if x.len() == 0 {
        assert(s =~= sw);
        assert(sw.subrange(1, sw.len() as int) =~= w);
        lemma_words_single(w);
        assert(words(sw) == words(w));
        assert(words(x) =~= Seq::<Seq<char>>::empty());
        assert(words(x) + seq![w] =~= seq![w]);
        assert(words(s) == words(x) + seq![w]);
    } else if is_ws(x[0]) {
        let x1 = x.subrange(1, x.len() as int);
        assert(s.subrange(1, s.len() as int) =~= x1 + " "@ + w);
        lemma_words_snoc(x1, w);
        assert(s[0] == x[0]);
        assert(words(s) == words(s.subrange(1, s.len() as int)));
        assert(words(x) == words(x1));
        assert(words(s) == words(x) + seq![w]);
    } else {
        lemma_word_len_prefix(x, sw);
        lemma_word_len_bound(x);
        let n = word_len(x) as int;
        assert(s[0] == x[0]);
        assert(word_len(s) == n);
        if n < x.len() {
            let x2 = x.subrange(n, x.len() as int);
            assert(s.subrange(0, n) =~= x.subrange(0, n));
            assert(s.subrange(n, s.len() as int) =~= x2 + " "@ + w);
            lemma_words_snoc(x2, w);
            assert(words(x) == seq![x.subrange(0, n)] + words(x2));
            assert(words(s) =~= seq![x.subrange(0, n)] + (words(x2) + seq![w]));
            assert(words(s) == words(x) + seq![w]);
        } else {
            assert(s.subrange(0, n) =~= x);
            assert(s.subrange(n, s.len() as int) =~= sw);
            assert(sw.subrange(1, sw.len() as int) =~= w);
            lemma_words_single(w);
            assert(words(x) == seq![x]);
            assert(words(sw) == words(w));
            assert(words(s) == seq![x] + words(sw));
            assert(words(s) == words(x) + seq![w]);
        }
    }
}

/// Whether every part is a non-empty word without white space.
pub open spec fn all_words(parts: Seq<Seq<char>>) -> bool {
    forall|i: int| 0 <= i < parts.len() ==> (#[trigger] parts[i]).len() > 0 && no_ws(parts[i])
}

/// Joining words with single spaces and splitting the result at white
/// space gives the words back.
pub proof fn lemma_words_of_join(parts: Seq<Seq<char>>)
    requires
        all_words(parts),
    ensures
        words(join(parts, " "@)) == parts,
    decreases parts.len(),
{
    if parts.len() == 0 {
        assert(words(Seq::<char>::empty()) =~= Seq::<Seq<char>>::empty());
    } else if parts.len() == 1 {
        lemma_words_single(parts[0]);
        assert(parts =~= seq![parts[0]]);
    } else {
        let init = parts.drop_last();
        assert(all_words(init)) by {
            assert forall|i: int| 0 <= i < init.len() implies (#[trigger] init[i]).len() > 0
                && no_ws(init[i]) by {
                assert(init[i] == parts[i]);
            }
        }
        lemma_words_of_join(init);
        assert(parts.last() == parts[parts.len() - 1]);
        lemma_words_snoc(join(init, " "@), parts.last());
        assert(parts =~= init + seq![parts.last()]);
    }
}

/// The views of a list of strings.
pub open spec fn views(v: Seq<String>) -> Seq<Seq<char>> {
    v.map_values(|s: String| s@)
}

/// The parts joined with single spaces (`[String]::join(" ")`).
pub fn join_with_spaces(parts: &Vec<String>) -> (r: String)
    ensures
        r@ == join(views(parts@), " "@),
{
    let mut acc: Vec<char> = Vec::new();
    let sp = chars_of(" ");
    let mut i: usize = 0;
    while i < parts.len()
        invariant
            i <= parts.len(),
            sp@ == " "@,
            acc@ == join(views(parts@.take(i as int)), " "@),
        decreases parts.len() - i,
    {
        let p = chars_of(parts[i].as_str());
        let ghost prev = views(parts@.take(i as int));
        assert(views(parts@.take(i + 1)) =~= prev.push(parts@[i as int]@));
        if i == 0 {
            acc = p;
            assert(views(parts@.take(1)) =~= seq![parts@[0]@]);
        } else {
            let a = concat(acc.as_slice(), sp.as_slice());
            acc = concat(a.as_slice(), p.as_slice());
            assert(prev.push(parts@[i as int]@).drop_last() =~= prev);
        }
        i = i + 1;
    }
    assert(parts@.take(parts.len() as int) =~= parts@);
    string_of(acc.as_slice())
}

/// The white-space separated words of a string, as strings.
pub fn split_whitespace(s: &str) -> (r: Vec<String>)
    ensures
        views(r@) == words(s@),
{
    let c = chars_of(s);
    let w = split_words(c.as_slice());
    let mut r: Vec<String> = Vec::new();
    let mut i: usize = 0;
    while i < w.len()
        invariant
            i <= w.len(),
            w@.map_values(|x: Vec<char>| x@) == words(s@),
            views(r@) == words(s@).take(i as int),
        decreases w.len() - i,
    {
        let ghost prev = views(r@);
        r.push(string_of(w[i].as_slice()));
        assert(w@.map_values(|x: Vec<char>| x@)[i as int] == w@[i as int]@);
        assert(views(r@) =~= prev.push(w@[i as int]@));
        assert(words(s@).take(i + 1) =~= words(s@).take(i as int).push(words(s@)[i as int]));
        i = i + 1;
    }
    assert(words(s@).take(w.len() as int) =~= words(s@));
    r
}

} // verus!
