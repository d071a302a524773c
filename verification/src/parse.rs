//! Verified field parsers for the raw CSV loaders: unsigned integers,
//! `month/day/year` dates, `hour:minute` clock times, and RFC 3339
//! timestamps.  Each parser is specified against a grammar written as a
//! spec function over `Seq<char>` and returns `None` on any input outside
//! that grammar.

use crate::calendar::{days_in_month, days_in_month_exec, Date, Instant, TimeOfDay};
use vstd::prelude::*;

verus! {

pub open spec fn is_digit(c: char) -> bool {
    '0' <= c && c <= '9'
}

pub open spec fn digit_val(c: char) -> int {
    c as int - '0' as int
}

pub open spec fn all_digits(s: Seq<char>) -> bool {
    forall|i: int| 0 <= i < s.len() ==> is_digit(s[i])
}

/// Value of a digit string read in base ten.
pub open spec fn digits_val(s: Seq<char>) -> int
    decreases s.len(),
{
    if s.len() == 0 {
        0
    } else {
        digits_val(s.drop_last()) * 10 + digit_val(s.last())
    }
}

pub open spec fn pow10(e: int) -> int
    decreases e,
{
    if e <= 0 {
        1
    } else {
        10 * pow10(e - 1)
    }
}

proof fn lemma_digits_val_bounds(s: Seq<char>)
    requires
        all_digits(s),
    ensures
        0 <= digits_val(s) < pow10(s.len() as int),
    decreases s.len(),
{
    if s.len() > 0 {
        assert(all_digits(s.drop_last()));
        lemma_digits_val_bounds(s.drop_last());
    }
}

proof fn lemma_digits_val_grow(s: Seq<char>, k: int)
    requires
        all_digits(s),
        0 <= k <= s.len(),
    ensures
        digits_val(s) >= digits_val(s.take(k)),
    decreases s.len() - k,
{
    if k < s.len() {
        assert(s.take(k + 1).drop_last() =~= s.take(k));
        assert(all_digits(s.take(k + 1)));
        lemma_digits_val_bounds(s.take(k));
        assert(digits_val(s.take(k + 1)) == digits_val(s.take(k)) * 10 + digit_val(s[k]));
        lemma_digits_val_grow(s, k + 1);
    } else {
        assert(s.take(k) =~= s);
    }
}

fn is_digit_exec(c: char) -> (r: bool)
    ensures
        r == is_digit(c),
{
    '0' <= c && c <= '9'
}

/// Parse of a plain digit run: the value of `s[from..to]` read in base
/// ten, or `None` when the run is empty, holds a non-digit, or does not
/// fit in `u32`.
pub open spec fn digits_parse(t: Seq<char>) -> Option<u32> {
    if t.len() > 0 && all_digits(t) && digits_val(t) <= u32::MAX {
        Some(digits_val(t) as u32)
    } else {
        None
    }
}

fn digits_value(s: &str, from: usize, to: usize) -> (r: Option<u32>)
    requires
        from <= to <= s@.len(),
    ensures
        r == digits_parse(s@.subrange(from as int, to as int)),
{
    let ghost t = s@.subrange(from as int, to as int);
    if from == to {
        return None;
    }
    let mut acc: u32 = 0;
    let mut i: usize = from;
    while i < to
        invariant
            from <= i <= to <= s@.len(),
            t == s@.subrange(from as int, to as int),
            all_digits(t.take(i - from)),
            acc == digits_val(t.take(i - from)),
        decreases to - i,
    {
        let c = s.get_char(i);
        assert(t[i - from] == c);
        if !is_digit_exec(c) {
            assert(!is_digit(t[i - from]));
            assert(!all_digits(t));
            return None;
        }
        let d = (c as u32) - 48;
        assert(d == digit_val(c)) by {
            assert('0' as int == 48);
        }
        let wide = (acc as u64) * 10 + (d as u64);
        proof {
            assert(t.take(i - from + 1).drop_last() =~= t.take(i - from));
            assert(t.take(i - from + 1).last() == t[i - from]);
            assert(digits_val(t.take(i - from + 1)) == wide);
            assert forall|j: int| 0 <= j < i - from + 1 implies is_digit(
                #[trigger] t.take(i - from + 1)[j],
            ) by {
                if j < i - from {
                    assert(is_digit(t.take(i - from)[j]));
                }
            }
        }
        if wide > u32::MAX as u64 {
            proof {
                if all_digits(t) {
                    lemma_digits_val_grow(t, i - from + 1);
                }
            }
            return None;
        }
        acc = wide as u32;
        i = i + 1;
    }
    proof {
        assert(t.take(to - from) =~= t);
    }
    Some(acc)
}

/// Parse of an unsigned decimal integer as `str::parse::<u32>` reads it:
/// an optional leading `+`, then one or more digits, value at most
/// `u32::MAX`.
pub open spec fn parse_u32_spec(s: Seq<char>) -> Option<u32> {
    if s.len() > 0 && s[0] == '+' {
        digits_parse(s.drop_first())
    } else {
        digits_parse(s)
    }
}

pub open spec fn parse_u16_spec(s: Seq<char>) -> Option<u16> {
    match parse_u32_spec(s) {
        Some(v) => if v <= u16::MAX as u32 {
            Some(v as u16)
        } else {
            None
        },
        None => None,
    }
}

pub open spec fn parse_u8_spec(s: Seq<char>) -> Option<u8> {
    match parse_u32_spec(s) {
        Some(v) => if v <= u8::MAX as u32 {
            Some(v as u8)
        } else {
            None
        },
        None => None,
    }
}

/// Reads an unsigned decimal integer, rejecting anything
/// `str::parse::<u32>` would reject.
pub fn parse_u32(s: &str) -> (r: Option<u32>)
    ensures
        r == parse_u32_spec(s@),
{
    let n = s.unicode_len();
    if n > 0 && s.get_char(0) == '+' {
        proof {
            assert(s@.subrange(1, n as int) =~= s@.drop_first());
        }
        digits_value(s, 1, n)
    } else {
        proof {
            assert(s@.subrange(0, n as int) =~= s@);
        }
        digits_value(s, 0, n)
    }
}

pub fn parse_u16(s: &str) -> (r: Option<u16>)
    ensures
        r == parse_u16_spec(s@),
{
    match parse_u32(s) {
        Some(v) => if v <= 0xffff {
            Some(v as u16)
        } else {
            None
        },
        None => None,
    }
}

/// Month, day and year digit groups combined into a calendar date.
pub open spec fn date_parts(mp: Seq<char>, dp: Seq<char>, yp: Seq<char>) -> Option<Date> {
    if yp.len() == 4 && all_digits(yp) {
        let m = digits_val(mp);
        let d = digits_val(dp);
        let y = digits_val(yp);
        if 1 <= m <= 12 && 1 <= d <= days_in_month(y, m) {
            Some(Date { year: y as u16, month: m as u8, day: d as u8 })
        } else {
            None
        }
    } else {
        None
    }
}

pub open spec fn date_rest(mp: Seq<char>, r: Seq<char>) -> Option<Date> {
    if r.len() >= 2 && is_digit(r[0]) && r[1] == '/' {
        date_parts(mp, r.subrange(0, 1), r.skip(2))
    } else if r.len() >= 3 && is_digit(r[0]) && is_digit(r[1]) && r[2] == '/' {
        date_parts(mp, r.subrange(0, 2), r.skip(3))
    } else {
        None
    }
}

/// The `month/day/year` date grammar: month and day of one or two digits,
/// year of exactly four, all slash-separated, forming a valid calendar
/// date.
pub open spec fn parse_date_spec(s: Seq<char>) -> Option<Date> {
    if s.len() >= 2 && is_digit(s[0]) && s[1] == '/' {
        date_rest(s.subrange(0, 1), s.skip(2))
    } else if s.len() >= 3 && is_digit(s[0]) && is_digit(s[1]) && s[2] == '/' {
        date_rest(s.subrange(0, 2), s.skip(3))
    } else {
        None
    }
}

/// Reads a `month/day/year` date, or `None` on any string outside that
/// grammar or naming no real calendar day.
pub fn parse_date(s: &str) -> (r: Option<Date>)
    ensures
        r == parse_date_spec(s@),
        r is Some ==> r.unwrap().valid() && r.unwrap().year <= 9999,
{
    let n = s.unicode_len();
    let ml: usize;
    if n >= 2 && is_digit_exec(s.get_char(0)) && s.get_char(1) == '/' {
        ml = 1;
    } else if n >= 3 && is_digit_exec(s.get_char(0)) && is_digit_exec(s.get_char(1))
        && s.get_char(2) == '/' {
        ml = 2;
    } else {
        return None;
    }
    let ghost rest = s@.skip(ml + 1);
    let dl: usize;
    if n >= ml + 3 && is_digit_exec(s.get_char(ml + 1)) && s.get_char(ml + 2) == '/' {
        dl = 1;
    } else if n >= ml + 4 && is_digit_exec(s.get_char(ml + 1)) && is_digit_exec(
        s.get_char(ml + 2),
    ) && s.get_char(ml + 3) == '/' {
        dl = 2;
    } else {
        return None;
    }
    let ghost mp = s@.subrange(0, ml as int);
    let ghost dp = rest.subrange(0, dl as int);
    let ghost yp = rest.skip(dl + 1);
    proof {
        assert(dp =~= s@.subrange(ml + 1, ml + 1 + dl));
        assert(yp =~= s@.subrange(ml + dl + 2, n as int));
        assert(all_digits(mp));
        assert(all_digits(dp));
        lemma_digits_val_bounds(mp);
        lemma_digits_val_bounds(dp);
        reveal_with_fuel(pow10, 5);
    }
    if n != ml + dl + 6 {
        assert(yp.len() != 4);
        return None;
    }
    let y = match digits_value(s, ml + dl + 2, n) {
        Some(v) => v,
        None => {
            proof {
                if all_digits(yp) {
                    lemma_digits_val_bounds(yp);
                }
            }
            return None;
        },
    };
    proof {
        lemma_digits_val_bounds(yp);
    }
    let m = digits_value(s, 0, ml).unwrap();
    let d = digits_value(s, ml + 1, ml + 1 + dl).unwrap();
    if !(1 <= m && m <= 12) {
        return None;
    }
    if !(1 <= d && d <= days_in_month_exec(y as u16, m as u8) as u32) {
        return None;
    }
    Some(Date { year: y as u16, month: m as u8, day: d as u8 })
}

/// Hour and minute digit groups combined into a time of day.
pub open spec fn time_parts(hp: Seq<char>, mp: Seq<char>) -> Option<TimeOfDay> {
    if mp.len() == 2 && all_digits(mp) {
        let h = digits_val(hp);
        let m = digits_val(mp);
        if h < 24 && m < 60 {
            Some(TimeOfDay { hour: h as u8, minute: m as u8 })
        } else {
            None
        }
    } else {
        None
    }
}

/// The `hour:minute` clock grammar: an hour of one or two digits below 24,
/// a colon, and a minute of exactly two digits below 60.
pub open spec fn parse_time_spec(s: Seq<char>) -> Option<TimeOfDay> {
    if s.len() >= 2 && is_digit(s[0]) && s[1] == ':' {
        time_parts(s.subrange(0, 1), s.skip(2))
    } else if s.len() >= 3 && is_digit(s[0]) && is_digit(s[1]) && s[2] == ':' {
        time_parts(s.subrange(0, 2), s.skip(3))
    } else {
        None
    }
}

/// Reads an `hour:minute` time of day, with no zero padding required on
/// the hour.
pub fn parse_time(s: &str) -> (r: Option<TimeOfDay>)
    ensures
        r == parse_time_spec(s@),
        r is Some ==> r.unwrap().valid(),
{
    let n = s.unicode_len();
    let hl: usize;
    if n >= 2 && is_digit_exec(s.get_char(0)) && s.get_char(1) == ':' {
        hl = 1;
    } else if n >= 3 && is_digit_exec(s.get_char(0)) && is_digit_exec(s.get_char(1))
        && s.get_char(2) == ':' {
        hl = 2;
    } else {
        return None;
    }
    let ghost hp = s@.subrange(0, hl as int);
    let ghost mp = s@.skip(hl + 1);
    proof {
        assert(all_digits(hp));
        lemma_digits_val_bounds(hp);
        reveal_with_fuel(pow10, 3);
    }
    if n != hl + 3 {
        assert(mp.len() != 2);
        return None;
    }
    let m = match digits_value(s, hl + 1, n) {
        Some(v) => v,
        None => {
            proof {
                assert(mp =~= s@.subrange(hl + 1, n as int));
                if all_digits(mp) {
                    lemma_digits_val_bounds(mp);
                }
            }
            return None;
        },
    };
    proof {
        assert(mp =~= s@.subrange(hl + 1, n as int));
        lemma_digits_val_bounds(mp);
    }
    let h = digits_value(s, 0, hl).unwrap();
    if h < 24 && m < 60 {
        Some(TimeOfDay { hour: h as u8, minute: m as u8 })
    } else {
        None
    }
}

/// Count of leading decimal digits.
pub open spec fn digit_run(s: Seq<char>) -> int
    decreases s.len(),
{
    if s.len() > 0 && is_digit(s.first()) {
        1 + digit_run(s.drop_first())
    } else {
        0
    }
}

proof fn lemma_digit_run_at(s: Seq<char>, i: int)
    requires
        0 <= i <= s.len(),
        forall|j: int| 0 <= j < i ==> is_digit(s[j]),
        i == s.len() || !is_digit(s[i]),
    ensures
        digit_run(s) == i,
    decreases i,
{
    if i > 0 {
        lemma_digit_run_at(s.drop_first(), i - 1);
    }
}

/// A numeric UTC offset or the zone designator `Z`, in seconds.
pub open spec fn parse_offset_spec(t: Seq<char>) -> Option<int> {
    if t.len() == 1 && (t[0] == 'Z' || t[0] == 'z') {
        Some(0)
    } else if t.len() == 6 && (t[0] == '+' || t[0] == '-') && all_digits(t.subrange(1, 3)) && t[3]
        == ':' && all_digits(t.subrange(4, 6)) {
        let h = digits_val(t.subrange(1, 3));
        let m = digits_val(t.subrange(4, 6));
        if h <= 23 && m <= 59 {
            if t[0] == '+' {
                Some(h * 3600 + m * 60)
            } else {
                Some(-(h * 3600 + m * 60))
            }
        } else {
            None
        }
    } else {
        None
    }
}

/// The tail of an RFC 3339 timestamp after the seconds: an optional
/// fraction of one to nine digits, then the offset.  Yields the fraction
/// in nanoseconds and the offset in seconds.
pub open spec fn parse_tail_spec(rest: Seq<char>) -> Option<(int, int)> {
    if rest.len() > 0 && rest[0] == '.' {
        let k = digit_run(rest.drop_first());
        if 1 <= k <= 9 {
            match parse_offset_spec(rest.skip(1 + k)) {
                Some(off) => Some((digits_val(rest.subrange(1, 1 + k)) * pow10(9 - k), off)),
                None => None,
            }
        } else {
            None
        }
    } else {
        match parse_offset_spec(rest) {
            Some(off) => Some((0, off)),
            None => None,
        }
    }
}

/// The fixed date-and-clock part of an RFC 3339 timestamp:
/// `yyyy-mm-ddThh:mm:ss`, with `T` in either case.
pub open spec fn rfc3339_shape(s: Seq<char>) -> bool {
    s.len() >= 20 && all_digits(s.subrange(0, 4)) && s[4] == '-' && all_digits(s.subrange(5, 7))
        && s[7] == '-' && all_digits(s.subrange(8, 10)) && (s[10] == 'T' || s[10] == 't')
        && all_digits(s.subrange(11, 13)) && s[13] == ':' && all_digits(s.subrange(14, 16)) && s[16]
        == ':' && all_digits(s.subrange(17, 19))
}

/// The RFC 3339 timestamp grammar, resolved to an instant at UTC offset
/// zero.
pub open spec fn parse_rfc3339_spec(s: Seq<char>) -> Option<Instant> {
    if rfc3339_shape(s) {
        let y = digits_val(s.subrange(0, 4));
        let mo = digits_val(s.subrange(5, 7));
        let d = digits_val(s.subrange(8, 10));
        let h = digits_val(s.subrange(11, 13));
        let mi = digits_val(s.subrange(14, 16));
        let se = digits_val(s.subrange(17, 19));
        if 1 <= mo <= 12 && 1 <= d <= days_in_month(y, mo) && h < 24 && mi < 60 && se < 60 {
            match parse_tail_spec(s.skip(19)) {
                Some(tail) => {
                    let date = Date { year: y as u16, month: mo as u8, day: d as u8 };
                    Some(
                        Instant {
                            secs: (date.index() * 86400 + h * 3600 + mi * 60 + se - tail.1) as i64,
                            nanos: tail.0 as u32,
                        },
                    )
                },
                None => None,
            }
        } else {
            None
        }
    } else {
        None
    }
}

proof fn lemma_pow10_pos(e: int)
    ensures
        pow10(e) >= 1,
    decreases e,
{
    if e > 0 {
        lemma_pow10_pos(e - 1);
    }
}

proof fn lemma_pow10_mul(a: int, b: int)
    requires
        0 <= a,
        0 <= b,
    ensures
        pow10(a + b) == pow10(a) * pow10(b),
    decreases a,
{
    if a > 0 {
        lemma_pow10_mul(a - 1, b);
        assert((10 * pow10(a - 1)) * pow10(b) == 10 * (pow10(a - 1) * pow10(b)))
            by (nonlinear_arith);
    }
}

fn pow10_exec(e: usize) -> (r: u64)
    requires
        e <= 9,
    ensures
        r == pow10(e as int),
        r <= 1_000_000_000,
{
    proof {
        reveal_with_fuel(pow10, 11);
    }
    if e == 0 {
        1
    } else if e == 1 {
        10
    } else if e == 2 {
        100
    } else if e == 3 {
        1_000
    } else if e == 4 {
        10_000
    } else if e == 5 {
        100_000
    } else if e == 6 {
        1_000_000
    } else if e == 7 {
        10_000_000
    } else if e == 8 {
        100_000_000
    } else {
        1_000_000_000
    }
}

/// Reads an RFC 3339 timestamp (as the hourly weather source stamps its
/// observations) and resolves it to an instant at UTC offset zero.
#[verifier::rlimit(50)]
pub fn parse_rfc3339(s: &str) -> (r: Option<Instant>)
    ensures
        r == parse_rfc3339_spec(s@),
{
    let n = s.unicode_len();
    if n < 20 {
        return None;
    }
    if !(s.get_char(4) == '-' && s.get_char(7) == '-' && (s.get_char(10) == 'T' || s.get_char(10)
        == 't') && s.get_char(13) == ':' && s.get_char(16) == ':') {
        return None;
    }
    proof {
        reveal_with_fuel(pow10, 5);
    }
    let y = match group_value(s, 0, 4) {
        Some(v) => v,
        None => {
            return None;
        },
    };
    let mo = match group_value(s, 5, 7) {
        Some(v) => v,
        None => {
            return None;
        },
    };
    let d = match group_value(s, 8, 10) {
        Some(v) => v,
        None => {
            return None;
        },
    };
    let h = match group_value(s, 11, 13) {
        Some(v) => v,
        None => {
            return None;
        },
    };
    let mi = match group_value(s, 14, 16) {
        Some(v) => v,
        None => {
            return None;
        },
    };
    let se = match group_value(s, 17, 19) {
        Some(v) => v,
        None => {
            return None;
        },
    };
    if !(1 <= mo && mo <= 12) {
        return None;
    }
    if !(1 <= d && d <= days_in_month_exec(y as u16, mo as u8) as u32) {
        return None;
    }
    if !(h < 24 && mi < 60 && se < 60) {
        return None;
    }
    let ghost rest = s@.skip(19);
    let nanos: u32;
    let pos: usize;
    if s.get_char(19) == '.' {
        let mut j: usize = 20;
        while j < n && is_digit_exec(s.get_char(j))
            invariant
                20 <= j <= n,
                n == s@.len(),
                forall|q: int| 20 <= q < j ==> is_digit(s@[q]),
            decreases n - j,
        {
            j = j + 1;
        }
        let k = j - 20;
        proof {
            assert(rest.drop_first() =~= s@.skip(20));
            assert forall|q: int| 0 <= q < k implies is_digit(#[trigger] s@.skip(20)[q]) by {
                assert(s@.skip(20)[q] == s@[q + 20]);
            }
            if j < n {
                assert(!is_digit(s@.skip(20)[k as int]));
            }
            lemma_digit_run_at(s@.skip(20), k as int);
        }
        if k < 1 || k > 9 {
            return None;
        }
        let ghost frac = rest.subrange(1, 1 + k);
        proof {
            assert(frac =~= s@.subrange(20, 20 + k));
            lemma_digits_val_bounds(frac);
            lemma_pow10_mul(k as int, 9 - k);
            lemma_pow10_pos(9 - k);
            reveal_with_fuel(pow10, 11);
        }
        let fv = digits_value(s, 20, 20 + k).unwrap();
        let scale = pow10_exec(9 - k);
        proof {
            assert((fv as int) * (scale as int) < pow10(k as int) * pow10(9 - k))
                by (nonlinear_arith)
                requires
                    0 <= fv < pow10(k as int),
                    1 <= scale == pow10(9 - k),
            ;
            assert(0 <= (fv as int) * (scale as int)) by (nonlinear_arith)
                requires
                    0 <= fv,
                    1 <= scale,
            ;
        }
        nanos = ((fv as u64) * scale) as u32;
        pos = 20 + k;
    } else {
        nanos = 0;
        pos = 19;
    }
    let ghost offt = s@.skip(pos as int);
    proof {
        if pos > 19 {
            assert(offt =~= rest.skip(pos - 19));
        } else {
            assert(offt =~= rest);
        }
    }
    let off: i64;
    if n == pos + 1 && (s.get_char(pos) == 'Z' || s.get_char(pos) == 'z') {
        off = 0;
    } else if n == pos + 6 && (s.get_char(pos) == '+' || s.get_char(pos) == '-') && s.get_char(
        pos + 3,
    ) == ':' {
        let oh = match group_value(s, pos + 1, pos + 3) {
            Some(v) => v,
            None => {
                proof {
                    assert(offt.subrange(1, 3) =~= s@.subrange(pos + 1, pos + 3));
                }
                return None;
            },
        };
        let om = match group_value(s, pos + 4, pos + 6) {
            Some(v) => v,
            None => {
                proof {
                    assert(offt.subrange(4, 6) =~= s@.subrange(pos + 4, pos + 6));
                }
                return None;
            },
        };
        proof {
            assert(offt.subrange(1, 3) =~= s@.subrange(pos + 1, pos + 3));
            assert(offt.subrange(4, 6) =~= s@.subrange(pos + 4, pos + 6));
        }
        if !(oh <= 23 && om <= 59) {
            return None;
        }
        let magnitude = (oh as i64) * 3600 + (om as i64) * 60;
        off = if s.get_char(pos) == '+' {
            magnitude
        } else {
            -magnitude
        };
    } else {
        return None;
    }
    let date = Date { year: y as u16, month: mo as u8, day: d as u8 };
    let idx = date.day_index();
    let secs = (idx as i64) * 86400 + (h as i64) * 3600 + (mi as i64) * 60 + (se as i64) - off;
    Some(Instant { secs, nanos })
}

/// A fixed-width digit group of at most four characters; `None` exactly
/// when some character is not a digit.
fn group_value(s: &str, from: usize, to: usize) -> (r: Option<u32>)
    requires
        from <= to <= s@.len(),
        to - from <= 4,
    ensures
        r is Some ==> all_digits(s@.subrange(from as int, to as int)) && r.unwrap() == digits_val(
            s@.subrange(from as int, to as int),
        ) && r.unwrap() < pow10(to - from),
        r is None ==> !all_digits(s@.subrange(from as int, to as int)) || to == from,
{
    let r = digits_value(s, from, to);
    proof {
        let t = s@.subrange(from as int, to as int);
        if all_digits(t) {
            lemma_digits_val_bounds(t);
            reveal_with_fuel(pow10, 5);
        }
    }
    r
}

pub fn parse_u8(s: &str) -> (r: Option<u8>)
    ensures
        r == parse_u8_spec(s@),
{
    match parse_u32(s) {
        Some(v) => if v <= 0xff {
            Some(v as u8)
        } else {
            None
        },
        None => None,
    }
}

} // verus!
