//! Decimal text for unsigned integers: formatting as `to_string` does and
//! parsing as `str::parse::<u64>` does.
use vstd::prelude::*;
use crate::text::push_char;
use crate::text::chars_of;

verus! {

/// The ASCII digit for `d < 10`.
pub open spec fn digit_char(d: nat) -> char {
    ((d + 48) as u8) as char
}

pub open spec fn is_digit(c: char) -> bool {
    '0' <= c <= '9'
}

pub open spec fn digit_value(c: char) -> nat {
    ((c as u32) - 48) as nat
}

/// The decimal form of `n`, without sign or leading zeros.
pub open spec fn spec_decimal(n: nat) -> Seq<char>
    decreases n,
{
    if n < 10 {
        seq![digit_char(n)]
    } else {
        spec_decimal(n / 10).push(digit_char(n % 10))
    }
}

pub open spec fn all_digits(s: Seq<char>) -> bool {
    forall|i: int| 0 <= i < s.len() ==> is_digit(#[trigger] s[i])
}

/// The number that a string of decimal digits stands for.
pub open spec fn digits_value(s: Seq<char>) -> nat
    decreases s.len(),
{
    if s.len() == 0 {
        0
    } else {
        digits_value(s.drop_last()) * 10 + digit_value(s.last())
    }
}

/// What `str::parse::<u64>` gives: an optional `+`, then at least one ASCII
/// digit, and a value that fits in 64 bits.
pub open spec fn spec_parse_u64(s: Seq<char>) -> Option<u64> {
    let d = if s.len() > 0 && s[0] == '+' {
        s.drop_first()
    } else {
        s
    };
    if d.len() > 0 && all_digits(d) && digits_value(d) <= u64::MAX {
        Some(digits_value(d) as u64)
    } else {
        None
    }
}

/// `n` as decimal text (`u64::to_string`).
pub fn decimal(n: u64) -> (s: String)
    ensures
        s@ == spec_decimal(n as nat),
    decreases n,
{
    if n < 10 {
        let mut s = String::new();
        push_char(&mut s, ((n as u8) + 48) as char);
        assert(s@ =~= seq![digit_char(n as nat)]);
        s
    } else {
        let mut s = decimal(n / 10);
        push_char(&mut s, (((n % 10) as u8) + 48) as char);
        s
    }
}

proof fn lemma_digits_value_prefix(s: Seq<char>, k: int)
    requires
        0 <= k <= s.len(),
    ensures
        digits_value(s.take(k)) <= digits_value(s),
    decreases s.len(),
{
    if k < s.len() {
        assert(s.drop_last().take(k) =~= s.take(k));
        lemma_digits_value_prefix(s.drop_last(), k);
    } else {
        assert(s.take(k) =~= s);
    }
}

/// Parses `s` as `str::parse::<u64>` does; `None` where that gives an error.
pub fn parse_u64(s: &str) -> (r: Option<u64>)
    ensures
        r == spec_parse_u64(s@),
{
    let v = chars_of(s);
    let n = v.len();
    let start: usize = if n > 0 && v[0] == '+' {
        1
    } else {
        0
    };
    let ghost d = if s@.len() > 0 && s@[0] == '+' {
        s@.drop_first()
    } else {
        s@
    };
    assert(d =~= v@.subrange(start as int, n as int));
    if start == n {
        return None;
    }
    let mut acc: u64 = 0;
    let mut i = start;
    while i < n
        invariant
            start <= i <= n == v.len(),
            v@ == s@,
            d == (if s@.len() > 0 && s@[0] == '+' {
                s@.drop_first()
            } else {
                s@
            }),
            d == v@.subrange(start as int, n as int),
            all_digits(d.take(i - start)),
            acc as nat == digits_value(d.take(i - start)),
        decreases n - i,
    {
        let c = v[i];
        if !('0' <= c && c <= '9') {
            assert(!is_digit(d[i - start]));
            return None;
        }
        let dig = (c as u32 - 48) as u64;
        assert(d.take(i - start + 1).drop_last() =~= d.take(i - start));
        if acc > (u64::MAX - dig) / 10 {
            proof {
                lemma_digits_value_prefix(d, i - start + 1);
            }
            assert(digits_value(d.take(i - start + 1)) > u64::MAX) by (nonlinear_arith)
                requires
                    digits_value(d.take(i - start + 1)) == acc * 10 + dig,
                    acc > (u64::MAX - dig) / 10,
                    dig <= 9,
            ;
            return None;
        }
        acc = acc * 10 + dig;
        i = i + 1;
    }
    assert(d.take(n - start) =~= d);
    Some(acc)
}

proof fn lemma_decimal_digits(n: nat)
    ensures
        spec_decimal(n).len() > 0,
        all_digits(spec_decimal(n)),
        digits_value(spec_decimal(n)) == n,
    decreases n,
{
    assert(digit_value(digit_char(n % 10)) == n % 10);
    if n >= 10 {
        lemma_decimal_digits(n / 10);
        let s = spec_decimal(n);
        assert(s.drop_last() =~= spec_decimal(n / 10));
        assert(s.last() == digit_char(n % 10));
        assert(digits_value(s) == (n / 10) * 10 + n % 10);
    } else {
        let s = spec_decimal(n);
        assert(s.drop_last().len() == 0);
        assert(digits_value(s.drop_last()) == 0);
    }
}

/// Decimal text reads back as the number it was made from.
pub proof fn law_decimal_round_trip(n: u64)
    ensures
        spec_parse_u64(spec_decimal(n as nat)) == Some(n),
{
    lemma_decimal_digits(n as nat);
}

} // verus!
