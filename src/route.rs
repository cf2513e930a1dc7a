use vstd::prelude::*;

verus! {

/// Numeric value of an ASCII decimal digit.
pub open spec fn digit_value(c: char) -> int {
    (c as int) - ('0' as int)
}

pub open spec fn is_digit(c: char) -> bool {
    '0' <= c && c <= '9'
}

/// The number that a string of decimal digits denotes.
pub open spec fn decimal_value(s: Seq<char>) -> int
    decreases s.len(),
{
    if s.len() == 0 {
        0
    } else {
        decimal_value(s.drop_last()) * 10 + digit_value(s.last())
    }
}

pub open spec fn all_digits(s: Seq<char>) -> bool {
    forall|i: int| 0 <= i < s.len() ==> is_digit(#[trigger] s[i])
}

/// A freshness window in whole minutes, as written in a request path: an
/// optional `+`, then one or more decimal digits, denoting a number in
/// `1..=u16::MAX`.
pub open spec fn valid_minutes(s: Seq<char>) -> bool {
    &&& minutes_digits(s).len() > 0
    &&& all_digits(minutes_digits(s))
    &&& 1 <= decimal_value(minutes_digits(s)) <= u16::MAX
}

/// The digits of a minutes segment, after an optional leading `+`.
pub open spec fn minutes_digits(s: Seq<char>) -> Seq<char> {
    if s.len() > 0 && s[0] == '+' { s.drop_first() } else { s }
}

pub open spec fn minutes_value(s: Seq<char>) -> int {
    decimal_value(minutes_digits(s))
}

proof fn lemma_decimal_nonneg(s: Seq<char>)
    requires
        all_digits(s),
    ensures
        decimal_value(s) >= 0,
    decreases s.len(),
{
    if s.len() > 0 {
        lemma_decimal_nonneg(s.drop_last());
    }
}

proof fn lemma_decimal_monotone(s: Seq<char>, k: int)
    requires
        all_digits(s),
        0 <= k <= s.len(),
    ensures
        decimal_value(s.subrange(0, k)) <= decimal_value(s),
    decreases s.len(),
{
    if k < s.len() {
        lemma_decimal_monotone(s.drop_last(), k);
        assert(s.drop_last().subrange(0, k) =~= s.subrange(0, k));
        lemma_decimal_nonneg(s.drop_last());
    } else {
        assert(s.subrange(0, k) =~= s);
    }
}

/// Parses the minutes segment of a cached route. Zero, a value over
/// `u16::MAX` and anything but digits after an optional `+` are refused.
pub fn parse_minutes(s: &str) -> (r: Option<u16>)
    ensures
        r is Some <==> valid_minutes(s@),
        r matches Some(m) ==> m as int == minutes_value(s@),
{
    let n: usize = s.unicode_len();
    let mut i: usize = 0;
    if n > 0 && s.get_char(0) == '+' {
        i = 1;
    }
    let start: usize = i;
    let ghost d = s@.subrange(start as int, n as int);
    assert(d =~= minutes_digits(s@));
    if i >= n {
        return None;
    }
    let mut acc: u32 = 0;
    while i < n
        invariant
            start <= i <= n,
            n == s@.len(),
            d == s@.subrange(start as int, n as int),
            d == minutes_digits(s@),
            all_digits(s@.subrange(start as int, i as int)),
            acc as int == decimal_value(s@.subrange(start as int, i as int)),
            acc <= u16::MAX,
        decreases n - i,
    {
        let c = s.get_char(i);
        let ghost pre = s@.subrange(start as int, i as int);
        assert(s@.subrange(start as int, i + 1) =~= pre.push(c));
        assert(pre.push(c).drop_last() =~= pre);
        if c < '0' || c > '9' {
            proof {
                assert(d[i - start] == s@[i as int]);
                assert(!is_digit(d[i - start]));
                assert(!all_digits(d));
                assert(!valid_minutes(s@));
            }
            return None;
        }
        let v: u32 = acc * 10 + (c as u32 - '0' as u32);
        if v > 65535 {
            proof {
                assert(all_digits(s@.subrange(start as int, i + 1)));
                assert(decimal_value(s@.subrange(start as int, i + 1)) == v);
                if all_digits(d) {
                    assert(d.subrange(0, i + 1 - start) =~= s@.subrange(start as int, i + 1));
                    lemma_decimal_monotone(d, i + 1 - start);
                    assert(decimal_value(d) > 65535);
                }
                assert(!valid_minutes(s@));
            }
            return None;
        }
        acc = v;
        i = i + 1;
    }
    assert(s@.subrange(start as int, i as int) =~= d);
    if acc == 0 {
        return None;
    }
    Some(acc as u16)
}

} // verus!
