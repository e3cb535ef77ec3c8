//! Decimal rendering and parsing of integers.

use vstd::prelude::*;

verus! {

/// The ASCII digit for `d` (0 to 9).
pub open spec fn digit_char(d: int) -> char {
    if d == 0 {
        '0'
    } else if d == 1 {
        '1'
    } else if d == 2 {
        '2'
    } else if d == 3 {
        '3'
    } else if d == 4 {
        '4'
    } else if d == 5 {
        '5'
    } else if d == 6 {
        '6'
    } else if d == 7 {
        '7'
    } else if d == 8 {
        '8'
    } else {
        '9'
    }
}

/// The decimal digits of `n`, without leading zeros.
pub open spec fn nat_str(n: nat) -> Seq<char>
    decreases n,
{
    if n < 10 {
        seq![digit_char(n as int)]
    } else {
        nat_str(n / 10).push(digit_char((n % 10) as int))
    }
}

/// The decimal rendering of `i`, with a leading `-` when negative
/// (what `Display` gives for an integer).
pub open spec fn int_str(i: int) -> Seq<char> {
    if i < 0 {
        seq!['-'] + nat_str((-i) as nat)
    } else {
        nat_str(i as nat)
    }
}

fn digit(d: u64) -> (c: char)
    requires
        d < 10,
    ensures
        c == digit_char(d as int),
{
    if d == 0 {
        '0'
    } else if d == 1 {
        '1'
    } else if d == 2 {
        '2'
    } else if d == 3 {
        '3'
    } else if d == 4 {
        '4'
    } else if d == 5 {
        '5'
    } else if d == 6 {
        '6'
    } else if d == 7 {
        '7'
    } else if d == 8 {
        '8'
    } else {
        '9'
    }
}

/// Appends the decimal digits of `n`.
pub fn push_u64(out: &mut String, n: u64)
    ensures
        final(out)@ == old(out)@ + nat_str(n as nat),
    decreases n,
{
    if n >= 10 {
        push_u64(out, n / 10);
    }
    let ghost before = out@;
    out.push(digit(n % 10));
    proof {
        if n >= 10 {
            assert(nat_str(n as nat) == nat_str((n / 10) as nat).push(digit_char((n % 10) as int)));
            assert(out@ =~= old(out)@ + nat_str(n as nat));
        } else {
            assert(out@ =~= old(out)@ + nat_str(n as nat));
        }
    }
}

/// Appends the decimal rendering of `n`.
pub fn push_i64(out: &mut String, n: i64)
    ensures
        final(out)@ == old(out)@ + int_str(n as int),
{
    if n < 0 {
        out.push('-');
        let m: u64 = (-(n as i128)) as u64;
        push_u64(out, m);
        assert(out@ =~= old(out)@ + int_str(n as int));
    } else {
        push_u64(out, n as u64);
    }
}

// ---------------------------------------------------------------------------
// Parsing
// ---------------------------------------------------------------------------

pub open spec fn is_digit(c: char) -> bool {
    '0' <= c && c <= '9'
}

pub open spec fn digit_value(c: char) -> int {
    (c as int) - ('0' as int)
}

pub open spec fn all_digits(s: Seq<char>) -> bool {
    forall|i: int| 0 <= i < s.len() ==> is_digit(#[trigger] s[i])
}

/// The number that the digit string `s` denotes.
pub open spec fn digits_value(s: Seq<char>) -> int
    decreases s.len(),
{
    if s.len() == 0 {
        0
    } else {
        digits_value(s.drop_last()) * 10 + digit_value(s.last())
    }
}

/// What `str::parse` gives for an unsigned integer type whose largest value
/// is `max`: an optional `+`, then one or more ASCII digits, denoting a
/// value no larger than `max`.
pub open spec fn parse_unsigned_spec(s: Seq<char>, max: int) -> Option<int> {
    let d = if s.len() > 0 && s[0] == '+' {
        s.drop_first()
    } else {
        s
    };
    if d.len() > 0 && all_digits(d) && digits_value(d) <= max {
        Some(digits_value(d))
    } else {
        None
    }
}

proof fn lemma_digits_value_nonneg(s: Seq<char>)
    requires
        all_digits(s),
    ensures
        digits_value(s) >= 0,
    decreases s.len(),
{
    if s.len() > 0 {
        assert(all_digits(s.drop_last()));
        lemma_digits_value_nonneg(s.drop_last());
        assert(is_digit(s[s.len() - 1]));
    }
}

proof fn lemma_digits_value_prefix(s: Seq<char>, k: int)
    requires
        all_digits(s),
        0 <= k <= s.len(),
    ensures
        digits_value(s.take(k)) <= digits_value(s),
    decreases s.len(),
{
    if k < s.len() {
        assert(all_digits(s.drop_last()));
        lemma_digits_value_prefix(s.drop_last(), k);
        assert(s.drop_last().take(k) =~= s.take(k));
        lemma_digits_value_nonneg(s.drop_last());
        assert(is_digit(s[s.len() - 1]));
    } else {
        assert(s.take(k) =~= s);
    }
}

/// Parses an unsigned decimal no larger than `max`.
pub fn parse_unsigned(s: &str, max: u64) -> (r: Option<u64>)
    ensures
        match r {
            Some(v) => parse_unsigned_spec(s@, max as int) == Some(v as int),
            None => parse_unsigned_spec(s@, max as int) is None,
        },
{
    let v = crate::text::chars_of(s);
    let start: usize = if v.len() > 0 && v[0] == '+' {
        1
    } else {
        0
    };
    let ghost d = if s@.len() > 0 && s@[0] == '+' {
        s@.drop_first()
    } else {
        s@
    };
    assert(d =~= v@.subrange(start as int, v@.len() as int));
    if start >= v.len() {
        return None;
    }
    let mut i: usize = start;
    while i < v.len()
        invariant
            start <= i <= v@.len(),
            d == v@.subrange(start as int, v@.len() as int),
            d == (if s@.len() > 0 && s@[0] == '+' { s@.drop_first() } else { s@ }),
            forall|k: int| start <= k < i ==> is_digit(#[trigger] v@[k]),
        decreases v.len() - i,
    {
        if !('0' <= v[i] && v[i] <= '9') {
            assert(d[i - start] == v@[i as int]);
            assert(!is_digit(d[i - start]));
            assert(!all_digits(d));
            return None;
        }
        i = i + 1;
    }
    assert(all_digits(d)) by {
        assert forall|k: int| 0 <= k < d.len() implies is_digit(#[trigger] d[k]) by {
            assert(d[k] == v@[start + k]);
        }
    }
    let mut acc: u64 = 0;
    let mut j: usize = start;
    while j < v.len()
        invariant
            start <= j <= v@.len(),
            d == v@.subrange(start as int, v@.len() as int),
            d == (if s@.len() > 0 && s@[0] == '+' { s@.drop_first() } else { s@ }),
            all_digits(d),
            acc as int == digits_value(d.take(j - start)),
            acc <= max,
        decreases v.len() - j,
    {
        let c = v[j];
        assert(c == d[j - start]);
        let dv: u64 = (c as u32 - '0' as u32) as u64;
        assert(dv == digit_value(c));
        assert(d.take(j - start + 1).drop_last() =~= d.take(j - start));
        if dv > max || acc > (max - dv) / 10 {
            proof {
                assert(digits_value(d.take(j - start + 1)) == acc * 10 + dv);
                if dv <= max {
                    assert(acc * 10 + dv > max) by (nonlinear_arith)
                        requires
                            acc > (max - dv) / 10,
                            dv <= max,
                    ;
                }
                lemma_digits_value_prefix(d, j - start + 1);
                assert(digits_value(d) > max);
            }
            return None;
        }
        assert(acc * 10 + dv <= max) by (nonlinear_arith)
            requires
                acc <= (max - dv) / 10,
                dv <= max,
        ;
        acc = acc * 10 + dv;
        j = j + 1;
    }
    assert(d.take(d.len() as int) =~= d);
    Some(acc)
}


proof fn lemma_digit_char(d: int)
    requires
        0 <= d < 10,
    ensures
        is_digit(digit_char(d)),
        digit_value(digit_char(d)) == d,
        digit_char(d) != '+',
{
}

proof fn lemma_nat_str_digits(n: nat)
    ensures
        nat_str(n).len() > 0,
        all_digits(nat_str(n)),
        digits_value(nat_str(n)) == n,
        nat_str(n)[0] != '+',
    decreases n,
{
    lemma_digit_char((n % 10) as int);
    if n < 10 {
        assert(nat_str(n).drop_last() =~= Seq::<char>::empty());
        assert(digits_value(Seq::<char>::empty()) == 0);
        assert(nat_str(n).last() == digit_char(n as int));
        assert(digits_value(nat_str(n)) == digits_value(nat_str(n).drop_last()) * 10
            + digit_value(nat_str(n).last()));
    }
    if n >= 10 {
        lemma_nat_str_digits(n / 10);
        let s = nat_str(n);
        assert(s.drop_last() =~= nat_str(n / 10));
        assert(s.last() == digit_char((n % 10) as int));
        assert(digits_value(s) == digits_value(nat_str(n / 10)) * 10 + digit_value(s.last()));
        assert((n / 10) * 10 + n % 10 == n);
        assert(s[0] == nat_str(n / 10)[0]);
        assert forall|i: int| 0 <= i < s.len() implies is_digit(#[trigger] s[i]) by {
            if i < s.len() - 1 {
                assert(s[i] == nat_str(n / 10)[i]);
            }
        }
    }
}

/// The decimal rendering of a number parses back to that number, as long as
/// it is within the bound.
pub proof fn lemma_parse_nat_str(n: nat, max: int)
    requires
        n <= max,
    ensures
        parse_unsigned_spec(nat_str(n), max) == Some(n as int),
{
    lemma_nat_str_digits(n);
}

} // verus!
