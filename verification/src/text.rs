//! Character-level text helpers: ASCII case folding, whitespace trimming,
//! and string comparison, each specified over `Seq<char>`.

use vstd::prelude::*;

verus! {

/// ASCII whitespace, the set trimmed from raw CSV fields.
pub open spec fn is_space(c: char) -> bool {
    c == ' ' || c == '\t' || c == '\n' || c == '\r' || c == '\u{b}' || c == '\u{c}'
}

/// ASCII lower-casing of one character.
pub open spec fn lower_char(c: char) -> char {
    if 'A' <= c && c <= 'Z' {
        ((c as u8) + 32) as char
    } else {
        c
    }
}

/// ASCII lower-casing of a string.
pub open spec fn lower_seq(s: Seq<char>) -> Seq<char> {
    Seq::new(s.len(), |i: int| lower_char(s[i]))
}

pub open spec fn leading_spaces(s: Seq<char>) -> int
    decreases s.len(),
{
    if s.len() > 0 && is_space(s.first()) {
        1 + leading_spaces(s.drop_first())
    } else {
        0
    }
}

pub open spec fn trailing_spaces(s: Seq<char>) -> int
    decreases s.len(),
{
    if s.len() > 0 && is_space(s.last()) {
        1 + trailing_spaces(s.drop_last())
    } else {
        0
    }
}

/// `s` without leading and trailing whitespace.
pub open spec fn trim_spec(s: Seq<char>) -> Seq<char> {
    let lo = leading_spaces(s);
    let hi = s.len() - trailing_spaces(s);
    if lo <= hi {
        s.subrange(lo, hi)
    } else {
        Seq::empty()
    }
}

proof fn lemma_leading_spaces_at(s: Seq<char>, i: int)
    requires
        0 <= i <= s.len(),
        forall|j: int| 0 <= j < i ==> is_space(s[j]),
        i == s.len() || !is_space(s[i]),
    ensures
        leading_spaces(s) == i,
    decreases i,
{
    if i > 0 {
        lemma_leading_spaces_at(s.drop_first(), i - 1);
    }
}

proof fn lemma_trailing_spaces_at(s: Seq<char>, i: int)
    requires
        0 <= i <= s.len(),
        forall|j: int| s.len() - i <= j < s.len() ==> is_space(s[j]),
        i == s.len() || !is_space(s[s.len() - 1 - i]),
    ensures
        trailing_spaces(s) == i,
    decreases i,
{
    if i > 0 {
        lemma_trailing_spaces_at(s.drop_last(), i - 1);
    }
}

/// Bounds of the trimmed middle of `s`: the pair `(lo, hi)` with
/// `trim_spec(s@) == s@.subrange(lo, hi)` when some character stays.
fn trim_bounds(s: &str) -> (r: (usize, usize))
    ensures
        r.0 <= r.1 <= s@.len() ==> trim_spec(s@) == s@.subrange(r.0 as int, r.1 as int),
        r.1 < r.0 ==> trim_spec(s@) == Seq::<char>::empty(),
        r.1 <= s@.len(),
{
    let n = s.unicode_len();
    let mut lo: usize = 0;
    while lo < n && is_space_exec(s.get_char(lo))
        invariant
            lo <= n,
            n == s@.len(),
            forall|j: int| 0 <= j < lo ==> is_space(s@[j]),
        decreases n - lo,
    {
        lo = lo + 1;
    }
    proof {
        lemma_leading_spaces_at(s@, lo as int);
    }
    let mut back: usize = 0;
    while back < n && is_space_exec(s.get_char(n - 1 - back))
        invariant
            back <= n,
            n == s@.len(),
            forall|j: int| n - back <= j < n ==> is_space(s@[j]),
        decreases n - back,
    {
        back = back + 1;
    }
    proof {
        lemma_trailing_spaces_at(s@, back as int);
    }
    (lo, n - back)
}

/// `s` with leading and trailing ASCII whitespace removed.
pub fn trim(s: &str) -> (r: String)
    ensures
        r@ == trim_spec(s@),
{
    let (lo, hi) = trim_bounds(s);
    if lo <= hi {
        s.substring_char(lo, hi).to_owned()
    } else {
        String::new()
    }
}

fn is_space_exec(c: char) -> (r: bool)
    ensures
        r == is_space(c),
{
    c == ' ' || c == '\t' || c == '\n' || c == '\r' || c == '\u{b}' || c == '\u{c}'
}

fn lower_char_exec(c: char) -> (r: char)
    ensures
        r == lower_char(c),
{
    let v = c as u32;
    if 65 <= v && v <= 90 {
        ((v as u8) + 32) as char
    } else {
        c
    }
}

/// The characters of `s`, lower-cased and trimmed of surrounding whitespace.
pub fn fold_chars(s: &str) -> (r: Vec<char>)
    ensures
        r@ == trim_spec(lower_seq(s@)),
{
    let n = s.unicode_len();
    let mut low: Vec<char> = Vec::new();
    let mut i: usize = 0;
    while i < n
        invariant
            i <= n,
            n == s@.len(),
            low@ =~= lower_seq(s@.take(i as int)),
        decreases n - i,
    {
        low.push(lower_char_exec(s.get_char(i)));
        proof {
            assert(lower_seq(s@.take(i + 1)) =~= lower_seq(s@.take(i as int)).push(
                lower_char(s@[i as int]),
            ));
        }
        i = i + 1;
    }
    proof {
        assert(s@.take(n as int) =~= s@);
    }
    trim_chars(&low)
}

fn trim_chars(v: &Vec<char>) -> (r: Vec<char>)
    ensures
        r@ == trim_spec(v@),
{
    let n = v.len();
    let mut lo: usize = 0;
    while lo < n && is_space_exec(v[lo])
        invariant
            lo <= n,
            n == v@.len(),
            forall|j: int| 0 <= j < lo ==> is_space(v@[j]),
        decreases n - lo,
    {
        lo = lo + 1;
    }
    proof {
        lemma_leading_spaces_at(v@, lo as int);
    }
    let mut back: usize = 0;
    while back < n && is_space_exec(v[n - 1 - back])
        invariant
            back <= n,
            n == v@.len(),
            forall|j: int| n - back <= j < n ==> is_space(v@[j]),
        decreases n - back,
    {
        back = back + 1;
    }
    proof {
        lemma_trailing_spaces_at(v@, back as int);
    }
    let hi = n - back;
    let mut r: Vec<char> = Vec::new();
    if lo <= hi {
        let mut i: usize = lo;
        while i < hi
            invariant
                lo <= i <= hi <= n,
                n == v@.len(),
                r@ =~= v@.subrange(lo as int, i as int),
            decreases hi - i,
        {
            r.push(v[i]);
            proof {
                assert(v@.subrange(lo as int, i + 1) =~= v@.subrange(lo as int, i as int).push(
                    v@[i as int],
                ));
            }
            i = i + 1;
        }
    }
    r
}

/// Whether the characters of `v` spell exactly the string `pat`.
pub fn chars_eq_str(v: &Vec<char>, pat: &str) -> (r: bool)
    ensures
        r == (v@ == pat@),
{
    let n = pat.unicode_len();
    if v.len() != n {
        return false;
    }
    let mut i: usize = 0;
    while i < n
        invariant
            i <= n,
            n == pat@.len(),
            n == v@.len(),
            forall|j: int| 0 <= j < i ==> v@[j] == pat@[j],
        decreases n - i,
    {
        if v[i] != pat.get_char(i) {
            return false;
        }
        i = i + 1;
    }
    proof {
        assert(v@ =~= pat@);
    }
    true
}

/// Whether `a` and `b` hold the same characters.
pub fn str_eq(a: &str, b: &str) -> (r: bool)
    ensures
        r == (a@ == b@),
{
    let n = b.unicode_len();
    if a.unicode_len() != n {
        return false;
    }
    let mut i: usize = 0;
    while i < n
        invariant
            i <= n,
            n == b@.len(),
            n == a@.len(),
            forall|j: int| 0 <= j < i ==> a@[j] == b@[j],
        decreases n - i,
    {
        if a.get_char(i) != b.get_char(i) {
            return false;
        }
        i = i + 1;
    }
    proof {
        assert(a@ =~= b@);
    }
    true
}

} // verus!
