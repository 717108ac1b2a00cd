//! Character-level helpers shared by the header, charset and message logic.
//!
//! Strings are modelled by their views, `Seq<char>`. Everything here works on those
//! sequences: trimming by Unicode `White_Space`, ASCII case folding, searching, and
//! rendering integers in decimal.

use vstd::prelude::*;

verus! {

/// The Unicode `White_Space` property, which is what `char::is_whitespace` and
/// `str::trim` use.
pub open spec fn is_white_space(c: char) -> bool {
    ||| ('\u{9}' <= c && c <= '\u{d}')
    ||| c == ' '
    ||| c == '\u{85}'
    ||| c == '\u{a0}'
    ||| c == '\u{1680}'
    ||| ('\u{2000}' <= c && c <= '\u{200a}')
    ||| c == '\u{2028}'
    ||| c == '\u{2029}'
    ||| c == '\u{202f}'
    ||| c == '\u{205f}'
    ||| c == '\u{3000}'
}

/// Which characters a strip removes: Unicode white space, or the double quote.
pub open spec fn strippable(c: char, quotes: bool) -> bool {
    if quotes {
        c == '"'
    } else {
        is_white_space(c)
    }
}

/// `s` without its leading strippable characters.
pub open spec fn strip_start(s: Seq<char>, quotes: bool) -> Seq<char>
    decreases s.len(),
{
    if s.len() > 0 && strippable(s[0], quotes) {
        strip_start(s.drop_first(), quotes)
    } else {
        s
    }
}

/// `s` without its trailing strippable characters.
pub open spec fn strip_end(s: Seq<char>, quotes: bool) -> Seq<char>
    decreases s.len(),
{
    if s.len() > 0 && strippable(s.last(), quotes) {
        strip_end(s.drop_last(), quotes)
    } else {
        s
    }
}

/// `str::trim`: leading and trailing white space removed.
pub open spec fn trim(s: Seq<char>) -> Seq<char> {
    strip_end(strip_start(s, false), false)
}

/// `str::trim_matches('"')`: leading and trailing double quotes removed.
pub open spec fn trim_quotes(s: Seq<char>) -> Seq<char> {
    strip_end(strip_start(s, true), true)
}

/// `char::to_ascii_lowercase`.
pub open spec fn ascii_lower(c: char) -> char {
    if 'A' <= c && c <= 'Z' {
        ((c as u32) + 32) as char
    } else {
        c
    }
}

/// `str::to_ascii_lowercase`, on the characters.
pub open spec fn ascii_lower_seq(s: Seq<char>) -> Seq<char> {
    Seq::new(s.len(), |i: int| ascii_lower(s[i]))
}

/// Whether every character is ASCII.
pub open spec fn is_ascii_text(s: Seq<char>) -> bool {
    forall|i: int| 0 <= i < s.len() ==> (#[trigger] s[i] as u32) < 0x80
}

/// `str::eq_ignore_ascii_case`.
pub open spec fn eq_ignore_ascii_case(a: Seq<char>, b: Seq<char>) -> bool {
    ascii_lower_seq(a) == ascii_lower_seq(b)
}

/// The position of the first `c` in `s`, if there is one.
pub open spec fn first_index_of(s: Seq<char>, c: char) -> Option<int>
    decreases s.len(),
{
    if s.len() == 0 {
        None
    } else if s[0] == c {
        Some(0)
    } else {
        match first_index_of(s.drop_first(), c) {
            Some(i) => Some(i + 1),
            None => None,
        }
    }
}

/// Whether `needle` occurs in `hay` starting at `at`.
pub open spec fn occurs_at(hay: Seq<char>, needle: Seq<char>, at: int) -> bool {
    0 <= at && at + needle.len() <= hay.len() && hay.subrange(at, at + needle.len()) == needle
}

/// `str::contains` with a string pattern.
pub open spec fn contains_seq(hay: Seq<char>, needle: Seq<char>) -> bool {
    exists|at: int| occurs_at(hay, needle, at)
}

/// The decimal digit for `d`.
pub open spec fn digit_char(d: nat) -> char {
    (('0' as u32) + d) as char
}

/// The decimal digits of `n`, most significant first, with no leading zeros.
pub open spec fn decimal_digits(n: nat) -> Seq<char>
    decreases n,
{
    if n < 10 {
        seq![digit_char(n)]
    } else {
        decimal_digits(n / 10).push(digit_char(n % 10))
    }
}

/// How `Display` renders an integer: a minus sign for a negative one, then its digits.
pub open spec fn decimal(n: int) -> Seq<char> {
    if n < 0 {
        seq!['-'] + decimal_digits((-n) as nat)
    } else {
        decimal_digits(n as nat)
    }
}

pub proof fn lemma_first_index_of(s: Seq<char>, c: char)
    ensures
        match first_index_of(s, c) {
            Some(i) => 0 <= i < s.len() && s[i] == c && forall|j: int| 0 <= j < i ==> s[j] != c,
            None => forall|j: int| 0 <= j < s.len() ==> s[j] != c,
        },
    decreases s.len(),
{
    if s.len() > 0 && s[0] != c {
        lemma_first_index_of(s.drop_first(), c);
        match first_index_of(s.drop_first(), c) {
            Some(i) => {
                assert forall|j: int| 0 <= j < i + 1 implies s[j] != c by {
                    if j > 0 {
                        assert(s[j] == s.drop_first()[j - 1]);
                    }
                }
            },
            None => {
                assert forall|j: int| 0 <= j < s.len() implies s[j] != c by {
                    if j > 0 {
                        assert(s[j] == s.drop_first()[j - 1]);
                    }
                }
            },
        }
    }
}

/// `first_index_of` is determined by where the first occurrence is.
pub proof fn lemma_first_index_of_at(s: Seq<char>, c: char, i: int)
    requires
        0 <= i <= s.len(),
        forall|j: int| 0 <= j < i ==> s[j] != c,
    ensures
        i < s.len() && s[i] == c ==> first_index_of(s, c) == Some(i),
        i == s.len() ==> first_index_of(s, c) is None,
    decreases i,
{
    if i > 0 {
        assert forall|j: int| 0 <= j < i - 1 implies s.drop_first()[j] != c by {
            assert(s.drop_first()[j] == s[j + 1]);
        }
        lemma_first_index_of_at(s.drop_first(), c, i - 1);
    }
}

/// The characters of a string slice.
pub fn str_chars(s: &str) -> (v: Vec<char>)
    ensures
        v@ == s@,
{
    let mut v: Vec<char> = Vec::new();
    for c in it: s.chars()
        invariant
            v@ == it.seq().take(it.index() as int),
    {
        v.push(c);
    }
    v
}

/// `String::push`.
#[verifier::external_body]
pub(crate) fn push_char(s: &mut String, c: char)
    ensures
        final(s)@ == old(s)@.push(c),
{
    s.push(c);
}

/// A `String` holding the characters `v[from..to]`.
pub fn string_of(v: &[char], from: usize, to: usize) -> (s: String)
    requires
        from <= to <= v@.len(),
    ensures
        s@ == v@.subrange(from as int, to as int),
{
    let mut s = String::new();
    let mut i: usize = from;
    while i < to
        invariant
            from <= i <= to <= v@.len(),
            s@ == v@.subrange(from as int, i as int),
        decreases to - i,
    {
        push_char(&mut s, v[i]);
        i = i + 1;
        assert(s@ == v@.subrange(from as int, i as int));
    }
    s
}

/// Appends `t` to `s`.
pub fn push_str(s: &mut String, t: &str)
    ensures
        final(s)@ == old(s)@ + t@,
{
    let cs = str_chars(t);
    let mut i: usize = 0;
    let ghost start = s@;
    while i < cs.len()
        invariant
            i <= cs@.len(),
            cs@ == t@,
            s@ == start + cs@.subrange(0, i as int),
        decreases cs.len() - i,
    {
        push_char(s, cs[i]);
        i = i + 1;
        assert(s@ == start + cs@.subrange(0, i as int));
    }
    assert(cs@.subrange(0, cs@.len() as int) == cs@);
}

/// `char::to_ascii_lowercase`.
pub fn lower_ascii_char(c: char) -> (r: char)
    ensures
        r == ascii_lower(c),
{
    if 'A' <= c && c <= 'Z' {
        let b: u32 = (c as u32) + 32;
        assert(b < 128);
        let r = (b as u8) as char;
        assert(r == ((c as u32) + 32) as char);
        r
    } else {
        c
    }
}

/// `str::to_ascii_lowercase`, on characters.
pub fn lower_ascii(v: &[char]) -> (r: Vec<char>)
    ensures
        r@ == ascii_lower_seq(v@),
{
    let mut r: Vec<char> = Vec::new();
    let mut i: usize = 0;
    while i < v.len()
        invariant
            i <= v@.len(),
            r@.len() == i,
            forall|j: int| 0 <= j < i ==> r@[j] == ascii_lower(v@[j]),
        decreases v.len() - i,
    {
        r.push(lower_ascii_char(v[i]));
        i = i + 1;
    }
    assert(r@ == ascii_lower_seq(v@));
    r
}

/// Whether two character sequences are equal.
pub fn chars_eq(a: &[char], b: &[char]) -> (r: bool)
    ensures
        r == (a@ == b@),
{
    if a.len() != b.len() {
        assert(ascii_lower_seq(a@).len() != ascii_lower_seq(b@).len());
        return false;
    }
    let mut i: usize = 0;
    while i < a.len()
        invariant
            i <= a@.len() == b@.len(),
            forall|j: int| 0 <= j < i ==> a@[j] == b@[j],
        decreases a.len() - i,
    {
        if a[i] != b[i] {
            return false;
        }
        i = i + 1;
    }
    assert(a@ == b@);
    true
}

/// `eq_ignore_ascii_case`, on characters.
pub fn chars_eq_ignore_ascii_case(a: &[char], b: &[char]) -> (r: bool)
    ensures
        r == eq_ignore_ascii_case(a@, b@),
{
    if a.len() != b.len() {
        assert(ascii_lower_seq(a@).len() != ascii_lower_seq(b@).len());
        return false;
    }
    let mut i: usize = 0;
    while i < a.len()
        invariant
            i <= a@.len() == b@.len(),
            forall|j: int| 0 <= j < i ==> ascii_lower(a@[j]) == ascii_lower(b@[j]),
        decreases a.len() - i,
    {
        if lower_ascii_char(a[i]) != lower_ascii_char(b[i]) {
            assert(ascii_lower_seq(a@)[i as int] != ascii_lower_seq(b@)[i as int]);
            return false;
        }
        i = i + 1;
    }
    assert(ascii_lower_seq(a@) == ascii_lower_seq(b@));
    true
}

/// Whether `c` is removed by a strip: white space, or the double quote.
pub fn is_strippable(c: char, quotes: bool) -> (r: bool)
    ensures
        r == strippable(c, quotes),
{
    if quotes {
        c == '"'
    } else {
        ('\u{9}' <= c && c <= '\u{d}') || c == ' ' || c == '\u{85}' || c == '\u{a0}'
            || c == '\u{1680}' || ('\u{2000}' <= c && c <= '\u{200a}') || c == '\u{2028}'
            || c == '\u{2029}' || c == '\u{202f}' || c == '\u{205f}' || c == '\u{3000}'
    }
}

proof fn lemma_strip_start_skip(s: Seq<char>, i: int, quotes: bool)
    requires
        0 <= i <= s.len(),
        forall|j: int| 0 <= j < i ==> strippable(s[j], quotes),
    ensures
        strip_start(s, quotes) == strip_start(s.subrange(i, s.len() as int), quotes),
    decreases i,
{
    if i > 0 {
        assert(s.drop_first().subrange(i - 1, s.drop_first().len() as int) == s.subrange(
            i,
            s.len() as int,
        ));
        lemma_strip_start_skip(s.drop_first(), i - 1, quotes);
    } else {
        assert(s.subrange(0, s.len() as int) == s);
    }
}

proof fn lemma_strip_end_take(s: Seq<char>, k: int, quotes: bool)
    requires
        0 <= k <= s.len(),
        forall|j: int| k <= j < s.len() ==> strippable(s[j], quotes),
    ensures
        strip_end(s, quotes) == strip_end(s.subrange(0, k), quotes),
    decreases s.len() - k,
{
    if k < s.len() {
        assert(s.drop_last().subrange(0, k) == s.subrange(0, k));
        lemma_strip_end_take(s.drop_last(), k, quotes);
    } else {
        assert(s.subrange(0, s.len() as int) == s);
    }
}

/// The bounds of `v[from..to]` once leading and trailing strippable characters are
/// removed.
pub fn strip_bounds(v: &[char], from: usize, to: usize, quotes: bool) -> (r: (usize, usize))
    requires
        from <= to <= v@.len(),
    ensures
        from <= r.0 <= r.1 <= to,
        v@.subrange(r.0 as int, r.1 as int) == strip_end(
            strip_start(v@.subrange(from as int, to as int), quotes),
            quotes,
        ),
{
    let ghost s = v@.subrange(from as int, to as int);
    let mut lo: usize = from;
    while lo < to && is_strippable(v[lo], quotes)
        invariant
            from <= lo <= to <= v@.len(),
            s == v@.subrange(from as int, to as int),
            forall|j: int| 0 <= j < lo - from ==> strippable(s[j], quotes),
        decreases to - lo,
    {
        lo = lo + 1;
    }
    proof {
        lemma_strip_start_skip(s, lo - from, quotes);
        let rest = s.subrange(lo - from, s.len() as int);
        assert(rest == v@.subrange(lo as int, to as int));
        if rest.len() > 0 {
            assert(rest[0] == v@[lo as int]);
        }
        assert(strip_start(s, quotes) == rest);
    }
    let ghost t = v@.subrange(lo as int, to as int);
    let mut hi: usize = to;
    while hi > lo && is_strippable(v[hi - 1], quotes)
        invariant
            from <= lo <= hi <= to <= v@.len(),
            t == v@.subrange(lo as int, to as int),
            forall|j: int| hi - lo <= j < t.len() ==> strippable(t[j], quotes),
        decreases hi - lo,
    {
        hi = hi - 1;
    }
    proof {
        lemma_strip_end_take(t, hi - lo, quotes);
        let kept = t.subrange(0, hi - lo);
        assert(kept == v@.subrange(lo as int, hi as int));
        if kept.len() > 0 {
            assert(kept.last() == v@[hi - 1]);
        }
    }
    (lo, hi)
}

/// The position of the first `c` in `v[from..to]`, relative to `from`.
pub fn find_char(v: &[char], from: usize, to: usize, c: char) -> (r: Option<usize>)
    requires
        from <= to <= v@.len(),
    ensures
        match r {
            Some(i) => first_index_of(v@.subrange(from as int, to as int), c) == Some(i as int)
                && from + i < to && v@[from + i] == c,
            None => first_index_of(v@.subrange(from as int, to as int), c) is None,
        },
{
    let ghost s = v@.subrange(from as int, to as int);
    let mut i: usize = from;
    while i < to
        invariant
            from <= i <= to <= v@.len(),
            s == v@.subrange(from as int, to as int),
            forall|j: int| 0 <= j < i - from ==> s[j] != c,
        decreases to - i,
    {
        if v[i] == c {
            proof {
                lemma_first_index_of_at(s, c, i - from);
            }
            return Some(i - from);
        }
        i = i + 1;
    }
    proof {
        lemma_first_index_of_at(s, c, s.len() as int);
    }
    None
}

/// Whether `needle` occurs in `hay`.
pub fn contains_chars(hay: &[char], needle: &[char]) -> (r: bool)
    ensures
        r == contains_seq(hay@, needle@),
{
    if needle.len() == 0 {
        assert(hay@.subrange(0, 0) == needle@);
        assert(occurs_at(hay@, needle@, 0));
        return true;
    }
    if needle.len() > hay.len() {
        assert forall|at: int| !occurs_at(hay@, needle@, at) by {}
        return false;
    }
    let n: usize = hay.len();
    let k: usize = needle.len();
    let last: usize = n - k;
    let mut at: usize = 0;
    while at <= last
        invariant
            n == hay@.len(),
            k == needle@.len(),
            last + k == n,
            1 <= k <= n,
            at <= last + 1,
            forall|k: int| 0 <= k < at ==> !occurs_at(hay@, needle@, k),
        decreases last + 1 - at,
    {
        let mut j: usize = 0;
        let mut same = true;
        while j < needle.len()
            invariant
                at <= last,
                n == hay@.len(),
                k == needle@.len(),
                last + k == n,
                1 <= k <= n,
                j <= needle@.len(),
                same ==> forall|m: int| 0 <= m < j ==> hay@[at + m] == needle@[m],
                !same ==> !occurs_at(hay@, needle@, at as int),
            decreases needle.len() - j,
        {
            if hay[at + j] != needle[j] {
                assert(hay@.subrange(at as int, at + needle@.len())[j as int] == hay@[at + j]);
                same = false;
            }
            j = j + 1;
        }
        if same {
            assert(hay@.subrange(at as int, at + needle@.len()) == needle@);
            assert(occurs_at(hay@, needle@, at as int));
            return true;
        }
        at = at + 1;
    }
    assert forall|k: int| !occurs_at(hay@, needle@, k) by {
        if 0 <= k && k + needle@.len() <= hay@.len() {
            assert(k < at);
        }
    }
    false
}

proof fn lemma_decimal_digits_len(n: nat)
    ensures
        decimal_digits(n).len() >= 1,
        n < 10 ==> decimal_digits(n).len() == 1,
    decreases n,
{
    if n >= 10 {
        lemma_decimal_digits_len(n / 10);
    }
}

/// The decimal rendering of `n`.
pub fn u64_decimal(n: u64) -> (s: String)
    ensures
        s@ == decimal_digits(n as nat),
{
    // Digits are produced least significant first, then reversed.
    let mut rev: Vec<char> = Vec::new();
    let mut m: u64 = n;
    let ghost mut done: Seq<char> = Seq::empty();
    while m >= 10
        invariant
            decimal_digits(n as nat) == decimal_digits(m as nat) + done,
            forall|j: int|
                0 <= j < done.len() ==> #[trigger] done[j] == rev@[rev@.len() - 1 - j],
            rev@.len() == done.len(),
        decreases m,
    {
        let c = (('0' as u8) + ((m % 10) as u8)) as char;
        assert(c == digit_char((m % 10) as nat));
        rev.push(c);
        proof {
            assert(decimal_digits(m as nat) == decimal_digits((m / 10) as nat).push(
                digit_char((m % 10) as nat),
            ));
            assert(decimal_digits((m / 10) as nat).push(c) + done == decimal_digits(
                (m / 10) as nat,
            ) + (seq![c] + done));
            done = seq![c] + done;
        }
        m = m / 10;
    }
    let c = (('0' as u8) + (m as u8)) as char;
    assert(c == digit_char(m as nat));
    rev.push(c);
    proof {
        assert(decimal_digits(m as nat) == seq![digit_char(m as nat)]);
        done = seq![c] + done;
    }
    let mut s = String::new();
    let mut k: usize = rev.len();
    while k > 0
        invariant
            k <= rev@.len() == done.len(),
            forall|j: int| 0 <= j < done.len() ==> #[trigger] done[j] == rev@[rev@.len() - 1 - j],
            s@ == done.subrange(0, rev@.len() - k),
            decimal_digits(n as nat) == done,
        decreases k,
    {
        k = k - 1;
        push_char(&mut s, rev[k]);
        assert(s@ == done.subrange(0, rev@.len() - k));
    }
    assert(done.subrange(0, done.len() as int) == done);
    s
}

/// The decimal rendering of `n`, as `Display` writes it.
pub fn i64_decimal(n: i64) -> (s: String)
    ensures
        s@ == decimal(n as int),
{
    if n < 0 {
        let magnitude: u64 = if n == i64::MIN {
            9_223_372_036_854_775_808u64
        } else {
            (-n) as u64
        };
        let mut s = String::new();
        push_char(&mut s, '-');
        let digits = u64_decimal(magnitude);
        push_str(&mut s, digits.as_str());
        s
    } else {
        u64_decimal(n as u64)
    }
}

} // verus!
