//! Character-level helpers on strings: comparison, trimming, ASCII case.

use vstd::prelude::*;

verus! {

/// The characters that `char::is_whitespace` accepts (Unicode `White_Space`).
pub open spec fn is_whitespace(c: char) -> bool {
    ||| ('\u{9}' <= c && c <= '\u{d}')
    ||| c == ' '
    ||| c == '\u{85}'
    ||| c == '\u{a0}'
    ||| c == '\u{1680}'
    ||| ('\u{2000}' <= c && c <= '\u{200a}')
    ||| c == '\u{2028}'
    ||| c == '\u{2029}'
    ||| c == '\u{202f}'
    ||| c == '\u{205f}'
    ||| c == '\u{3000}'
}

/// `s` without its leading whitespace.
pub open spec fn trim_start(s: Seq<char>) -> Seq<char>
    decreases s.len(),
{
    if s.len() > 0 && is_whitespace(s[0]) {
        trim_start(s.drop_first())
    } else {
        s
    }
}

/// `s` without its trailing whitespace.
pub open spec fn trim_end(s: Seq<char>) -> Seq<char>
    decreases s.len(),
{
    if s.len() > 0 && is_whitespace(s.last()) {
        trim_end(s.drop_last())
    } else {
        s
    }
}

/// `s` without leading and trailing whitespace, as `str::trim` gives it.
pub open spec fn trim(s: Seq<char>) -> Seq<char> {
    trim_end(trim_start(s))
}

/// `c` with `A`..=`Z` mapped to `a`..=`z`; every other character unchanged.
pub open spec fn ascii_lower(c: char) -> char {
    if 'A' <= c && c <= 'Z' {
        (((c as u8) + 32) as u8) as char
    } else {
        c
    }
}

/// `s` with every ASCII capital letter lowered, as `str::to_ascii_lowercase` gives it.
pub open spec fn ascii_lowercase(s: Seq<char>) -> Seq<char> {
    s.map_values(|c: char| ascii_lower(c))
}

/// `c` with `a`..=`z` mapped to `A`..=`Z`; every other character unchanged.
pub open spec fn ascii_upper(c: char) -> char {
    if 'a' <= c && c <= 'z' {
        (((c as u8) - 32) as u8) as char
    } else {
        c
    }
}

/// `s` with every ASCII small letter raised, as `str::to_ascii_uppercase` gives it.
pub open spec fn ascii_uppercase(s: Seq<char>) -> Seq<char> {
    s.map_values(|c: char| ascii_upper(c))
}

/// Every character of `s` is whitespace.
pub open spec fn all_whitespace(s: Seq<char>) -> bool {
    forall|i: int| 0 <= i < s.len() ==> is_whitespace(#[trigger] s[i])
}

proof fn lemma_trim_start_skips_whitespace(p: Seq<char>, s: Seq<char>)
    requires
        all_whitespace(p),
    ensures
        trim_start(p + s) == trim_start(s),
    decreases p.len(),
{
    if p.len() > 0 {
        assert((p + s)[0] == p[0]);
        assert((p + s).drop_first() =~= p.drop_first() + s);
        lemma_trim_start_skips_whitespace(p.drop_first(), s);
    } else {
        assert(p + s =~= s);
    }
}

proof fn lemma_trim_end_skips_whitespace(s: Seq<char>, q: Seq<char>)
    requires
        all_whitespace(q),
    ensures
        trim_end(s + q) == trim_end(s),
    decreases q.len(),
{
    if q.len() > 0 {
        assert((s + q).last() == q.last());
        assert((s + q).drop_last() =~= s + q.drop_last());
        lemma_trim_end_skips_whitespace(s, q.drop_last());
    } else {
        assert(s + q =~= s);
    }
}

proof fn lemma_trim_start_of_all_whitespace(s: Seq<char>)
    requires
        all_whitespace(s),
    ensures
        trim_start(s) == Seq::<char>::empty(),
    decreases s.len(),
{
    if s.len() > 0 {
        lemma_trim_start_of_all_whitespace(s.drop_first());
    } else {
        assert(s =~= Seq::<char>::empty());
    }
}

proof fn lemma_trim_start_keeps_tail(s: Seq<char>, q: Seq<char>)
    requires
        !all_whitespace(s),
    ensures
        trim_start(s + q) == trim_start(s) + q,
    decreases s.len(),
{
    assert((s + q)[0] == s[0]);
    if is_whitespace(s[0]) {
        assert((s + q).drop_first() =~= s.drop_first() + q);
        let k = choose|k: int| 0 <= k < s.len() && !is_whitespace(#[trigger] s[k]);
        assert(s.drop_first()[k - 1] == s[k]);
        lemma_trim_start_keeps_tail(s.drop_first(), q);
    }
}

/// Whitespace before and after a text does not change its trimmed form.
pub proof fn lemma_trim_ignores_padding(p: Seq<char>, s: Seq<char>, q: Seq<char>)
    requires
        all_whitespace(p),
        all_whitespace(q),
    ensures
        trim(p + s + q) == trim(s),
{
    assert(p + s + q =~= p + (s + q));
    lemma_trim_start_skips_whitespace(p, s + q);
    if all_whitespace(s) {
        assert(all_whitespace(s + q));
        lemma_trim_start_of_all_whitespace(s + q);
        lemma_trim_start_of_all_whitespace(s);
    } else {
        lemma_trim_start_keeps_tail(s, q);
        lemma_trim_end_skips_whitespace(trim_start(s), q);
    }
}

/// A character map that keeps whitespace whitespace and everything else
/// not whitespace commutes with trimming.
proof fn lemma_trim_commutes_with_map(s: Seq<char>, f: spec_fn(char) -> char)
    requires
        forall|c: char| #[trigger] is_whitespace(f(c)) == is_whitespace(c),
    ensures
        trim(s.map_values(f)) == trim(s).map_values(f),
{
    lemma_trim_start_map(s, f);
    lemma_trim_end_map(trim_start(s), f);
}

proof fn lemma_trim_start_map(s: Seq<char>, f: spec_fn(char) -> char)
    requires
        forall|c: char| #[trigger] is_whitespace(f(c)) == is_whitespace(c),
    ensures
        trim_start(s.map_values(f)) == trim_start(s).map_values(f),
    decreases s.len(),
{
    if s.len() > 0 {
        assert(s.map_values(f)[0] == f(s[0]));
        assert(s.map_values(f).drop_first() =~= s.drop_first().map_values(f));
        lemma_trim_start_map(s.drop_first(), f);
    }
}

proof fn lemma_trim_end_map(s: Seq<char>, f: spec_fn(char) -> char)
    requires
        forall|c: char| #[trigger] is_whitespace(f(c)) == is_whitespace(c),
    ensures
        trim_end(s.map_values(f)) == trim_end(s).map_values(f),
    decreases s.len(),
{
    if s.len() > 0 {
        assert(s.map_values(f).last() == f(s.last()));
        assert(s.map_values(f).drop_last() =~= s.drop_last().map_values(f));
        lemma_trim_end_map(s.drop_last(), f);
    }
}

/// Raising ASCII case first does not change the trimmed, lowered form.
pub proof fn lemma_lowered_trim_ignores_ascii_case(s: Seq<char>)
    ensures
        ascii_lowercase(trim(ascii_uppercase(s))) == ascii_lowercase(trim(s)),
        ascii_lowercase(trim(ascii_lowercase(s))) == ascii_lowercase(trim(s)),
{
    let up = |c: char| ascii_upper(c);
    let low = |c: char| ascii_lower(c);
    assert forall|c: char| #[trigger] is_whitespace(up(c)) == is_whitespace(c) by {
        if 'a' <= c && c <= 'z' {
            assert(!is_whitespace(c));
            assert('A' <= up(c) && up(c) <= 'Z');
        }
    }
    assert forall|c: char| #[trigger] is_whitespace(low(c)) == is_whitespace(c) by {
        if 'A' <= c && c <= 'Z' {
            assert(!is_whitespace(c));
            assert('a' <= low(c) && low(c) <= 'z');
        }
    }
    lemma_trim_commutes_with_map(s, up);
    lemma_trim_commutes_with_map(s, low);
    let t = trim(s);
    assert forall|c: char| #[trigger] ascii_lower(ascii_upper(c)) == ascii_lower(c) by {
    }
    assert forall|c: char| #[trigger] ascii_lower(ascii_lower(c)) == ascii_lower(c) by {
    }
    assert(ascii_lowercase(t.map_values(up)) =~= ascii_lowercase(t));
    assert(ascii_lowercase(t.map_values(low)) =~= ascii_lowercase(t));
    assert(ascii_uppercase(s) == s.map_values(up));
    assert(ascii_lowercase(s) == s.map_values(low));
}

/// None of the first `n` characters of `s` is an ASCII capital letter.
pub open spec fn no_capitals_before(s: Seq<char>, n: int) -> bool
    decreases n,
{
    if n <= 0 {
        true
    } else {
        !('A' <= s[n - 1] && s[n - 1] <= 'Z') && no_capitals_before(s, n - 1)
    }
}

proof fn lemma_no_capitals_before(s: Seq<char>, n: int)
    requires
        no_capitals_before(s, n),
    ensures
        forall|i: int| 0 <= i < n ==> !('A' <= #[trigger] s[i] && s[i] <= 'Z'),
    decreases n,
{
    if n > 0 {
        lemma_no_capitals_before(s, n - 1);
    }
}

/// A text with no ASCII capital letter and no whitespace at either end is
/// its own trimmed, lowered form.
pub proof fn lemma_plain_lowercase_text(s: Seq<char>)
    requires
        s.len() > 0,
        !is_whitespace(s[0]),
        !is_whitespace(s.last()),
        no_capitals_before(s, s.len() as int),
    ensures
        ascii_lowercase(trim(s)) == s,
{
    lemma_no_capitals_before(s, s.len() as int);
    assert(trim_start(s) == s);
    assert(trim_end(s) == s);
    assert(ascii_lowercase(s) =~= s);
}

/// Whether `c` is whitespace.
pub fn char_is_whitespace(c: char) -> (r: bool)
    ensures
        r == is_whitespace(c),
{
    ('\u{9}' <= c && c <= '\u{d}') || c == ' ' || c == '\u{85}' || c == '\u{a0}' || c
        == '\u{1680}' || ('\u{2000}' <= c && c <= '\u{200a}') || c == '\u{2028}' || c == '\u{2029}'
        || c == '\u{202f}' || c == '\u{205f}' || c == '\u{3000}'
}

/// `c` with an ASCII capital letter lowered.
pub fn char_ascii_lower(c: char) -> (r: char)
    ensures
        r == ascii_lower(c),
{
    if 'A' <= c && c <= 'Z' {
        let b: u8 = c as u8;
        (b + 32) as char
    } else {
        c
    }
}

/// Whether `a` and `b` hold the same characters.
pub fn same_chars(a: &str, b: &str) -> (r: bool)
    ensures
        r == (a@ == b@),
{
    let n = a.unicode_len();
    if n != b.unicode_len() {
        return false;
    }
    let mut i: usize = 0;
    while i < n
        invariant
            n == a@.len(),
            n == b@.len(),
            i <= n,
            forall|k: int| 0 <= k < i ==> a@[k] == b@[k],
        decreases n - i,
    {
        if a.get_char(i) != b.get_char(i) {
            return false;
        }
        i = i + 1;
    }
    assert(a@ =~= b@);
    true
}

proof fn lemma_trim_start_skip(s: Seq<char>, i: int)
    requires
        0 <= i < s.len(),
        forall|k: int| 0 <= k <= i ==> is_whitespace(#[trigger] s[k]),
    ensures
        trim_start(s) == trim_start(s.skip(i + 1)),
    decreases i,
{
    assert(s.drop_first() =~= s.skip(1));
    if i > 0 {
        lemma_trim_start_skip(s.drop_first(), i - 1);
        assert(s.drop_first().skip(i) =~= s.skip(i + 1));
    }
}

proof fn lemma_trim_end_take(s: Seq<char>, j: int)
    requires
        0 < j <= s.len(),
        forall|k: int| j - 1 <= k < s.len() ==> is_whitespace(#[trigger] s[k]),
    ensures
        trim_end(s) == trim_end(s.take(j - 1)),
    decreases s.len() - j,
{
    assert(s.drop_last() =~= s.take(s.len() - 1));
    if j < s.len() {
        lemma_trim_end_take(s.drop_last(), j);
        assert(s.drop_last().take(j - 1) =~= s.take(j - 1));
    }
}

/// The characters of `s`, trimmed of surrounding whitespace and lowered in
/// ASCII case.
pub fn trimmed_ascii_lowercase(s: &str) -> (r: Vec<char>)
    ensures
        r@ == ascii_lowercase(trim(s@)),
{
    let n = s.unicode_len();
    let ghost v = s@;
    let mut start: usize = 0;
    while start < n && char_is_whitespace(s.get_char(start))
        invariant
            n == v.len(),
            v == s@,
            start <= n,
            forall|k: int| 0 <= k < start ==> is_whitespace(#[trigger] v[k]),
        decreases n - start,
    {
        start = start + 1;
    }
    proof {
        if start > 0 {
            lemma_trim_start_skip(v, start - 1);
        } else {
            assert(v.skip(0) =~= v);
        }
        assert(trim_start(v.skip(start as int)) == v.skip(start as int));
    }
    let ghost u = v.skip(start as int);
    let mut end: usize = n;
    while end > start && char_is_whitespace(s.get_char(end - 1))
        invariant
            n == v.len(),
            v == s@,
            u == v.skip(start as int),
            start <= end <= n,
            forall|k: int| end <= k < n ==> is_whitespace(#[trigger] v[k]),
        decreases end - start,
    {
        end = end - 1;
    }
    proof {
        let m = end - start;
        assert forall|k: int| m <= k < u.len() implies is_whitespace(#[trigger] u[k]) by {
            assert(u[k] == v[k + start]);
        }
        if (m as int) < u.len() {
            lemma_trim_end_take(u, m + 1);
        } else {
            assert(u.take(m as int) =~= u);
        }
        assert(trim_end(u.take(m as int)) == u.take(m as int));
    }
    let mut out: Vec<char> = Vec::new();
    let mut i: usize = start;
    while i < end
        invariant
            n == v.len(),
            v == s@,
            start <= i <= end <= n,
            out@ =~= v.subrange(start as int, i as int).map_values(|c: char| ascii_lower(c)),
        decreases end - i,
    {
        let c = char_ascii_lower(s.get_char(i));
        out.push(c);
        i = i + 1;
    }
    proof {
        assert(v.skip(start as int).take(end - start) =~= v.subrange(start as int, end as int));
    }
    out
}

} // verus!
