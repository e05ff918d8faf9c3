//! Decimal digit strings: parsing unsigned integers from character
//! sequences and rendering them back, with exact contracts relating the
//! two to a mathematical digit-string value.

use vstd::prelude::*;
use crate::text::is_digit_char;

verus! {

/// Numeric value of an ASCII digit character.
pub open spec fn digit_val(c: char) -> int {
    (c as int) - 48
}

/// The digit character for a value in `0..10`.
pub open spec fn digit_char(d: int) -> char {
    ((d + 48) as u8) as char
}

/// Every character of `s` is an ASCII decimal digit.
pub open spec fn all_digits(s: Seq<char>) -> bool {
    forall|i: int| 0 <= i < s.len() ==> is_digit_char(s[i])
}

/// Value of a digit string, most significant digit first.
pub open spec fn digits_val(s: Seq<char>) -> int
    decreases s.len(),
{
    if s.len() == 0 {
        0
    } else {
        digits_val(s.drop_last()) * 10 + digit_val(s.last())
    }
}

/// The number an unsigned decimal literal denotes: an optional leading
/// `'+'`, then at least one digit and nothing else, as `str::parse`
/// accepts for the unsigned integer types (ignoring the type's bound).
pub open spec fn uint_from_chars(s: Seq<char>) -> Option<int> {
    let d = if s.len() > 0 && s[0] == '+' {
        s.drop_first()
    } else {
        s
    };
    if d.len() > 0 && all_digits(d) {
        Some(digits_val(d))
    } else {
        None
    }
}

/// A digit string has a non-negative value.
pub proof fn lemma_digits_val_nonneg(s: Seq<char>)
    requires
        all_digits(s),
    ensures
        digits_val(s) >= 0,
    decreases s.len(),
{
    if s.len() > 0 {
        assert(all_digits(s.drop_last()));
        lemma_digits_val_nonneg(s.drop_last());
    }
}

/// Extending a digit string cannot decrease its value.
pub proof fn lemma_digits_val_prefix(s: Seq<char>, k: int)
    requires
        all_digits(s),
        0 <= k <= s.len(),
    ensures
        digits_val(s) >= digits_val(s.take(k)),
    decreases s.len() - k,
{
    if k < s.len() {
        assert(all_digits(s.take(k)));
        lemma_digits_val_nonneg(s.take(k));
        assert(s.take(k + 1).drop_last() =~= s.take(k));
        assert(s.take(k + 1).last() == s[k]);
        lemma_digits_val_prefix(s, k + 1);
    } else {
        assert(s.take(k) =~= s);
    }
}

/// Helper for `parse_u32_chars`: at least one character of `d` is not a
/// digit, so the literal is rejected.
proof fn lemma_not_all_digits(d: Seq<char>, j: int)
    requires
        0 <= j < d.len(),
        !is_digit_char(d[j]),
    ensures
        !all_digits(d),
{
}

/// The digit portion a decimal literal parse looks at: everything after
/// the optional leading sign.
proof fn lemma_uint_unfold(s: Seq<char>, start: int)
    requires
        start == if s.len() > 0 && s[0] == '+' {
            1int
        } else {
            0int
        },
    ensures
        uint_from_chars(s) == {
            let d = s.subrange(start, s.len() as int);
            if d.len() > 0 && all_digits(d) {
                Some(digits_val(d))
            } else {
                None::<int>
            }
        },
{
    let dd = if s.len() > 0 && s[0] == '+' {
        s.drop_first()
    } else {
        s
    };
    assert(dd =~= s.subrange(start, s.len() as int));
}

/// Parses the characters of `v` as a `u32`, as `str::parse::<u32>` would:
/// `None` exactly when the characters are not an unsigned decimal literal
/// or the value exceeds `u32::MAX`.
pub fn parse_u32_chars(v: &Vec<char>) -> (r: Option<u32>)
    ensures
        match r {
            Some(n) => uint_from_chars(v@) == Some(n as int),
            None => match uint_from_chars(v@) {
                Some(m) => m > u32::MAX,
                None => true,
            },
        },
{
    let n = v.len();
    let start: usize = if n > 0 && v[0] == '+' {
        1
    } else {
        0
    };
    let ghost d = v@.subrange(start as int, n as int);
    if start == n {
        proof {
            lemma_uint_unfold(v@, start as int);
        }
        return None;
    }
    let mut acc: u32 = 0;
    let mut i = start;
    while i < n
        invariant
            start <= i <= n,
            n == v@.len(),
            start as int == if v@.len() > 0 && v@[0] == '+' {
                1int
            } else {
                0int
            },
            d == v@.subrange(start as int, n as int),
            d.len() == n - start,
            all_digits(d.take(i - start)),
            acc as int == digits_val(d.take(i - start)),
        decreases n - i,
    {
        let c = v[i];
        if !('0' <= c && c <= '9') {
            proof {
                assert(d[i - start] == c);
                lemma_not_all_digits(d, i - start);
                lemma_uint_unfold(v@, start as int);
            }
            return None;
        }
        let dv: u32 = (c as u32) - 48;
        proof {
            assert(d.take(i - start + 1).drop_last() =~= d.take(i - start));
            assert(d.take(i - start + 1).last() == c);
        }
        if acc > (u32::MAX - dv) / 10 {
            proof {
                if all_digits(d) {
                    assert(digits_val(d.take(i - start + 1)) > u32::MAX);
                    lemma_digits_val_prefix(d, i - start + 1);
                }
                lemma_uint_unfold(v@, start as int);
            }
            return None;
        }
        acc = acc * 10 + dv;
        i = i + 1;
    }
    proof {
        assert(d.take(n - start) =~= d);
        lemma_uint_unfold(v@, start as int);
    }
    Some(acc)
}

/// Parses the characters of `v` as a `u16`, as `str::parse::<u16>` would.
pub fn parse_u16_chars(v: &Vec<char>) -> (r: Option<u16>)
    ensures
        match r {
            Some(n) => uint_from_chars(v@) == Some(n as int),
            None => match uint_from_chars(v@) {
                Some(m) => m > u16::MAX,
                None => true,
            },
        },
{
    match parse_u32_chars(v) {
        Some(n) => if n <= 65535 {
            Some(n as u16)
        } else {
            None
        },
        None => None,
    }
}

/// Decimal rendering of a non-negative number, without sign or padding.
pub open spec fn dec_digits(n: int) -> Seq<char>
    decreases n,
{
    if n < 10 {
        seq![digit_char(n)]
    } else {
        dec_digits(n / 10).push(digit_char(n % 10))
    }
}

/// Renders `n` in decimal.
pub fn u32_to_chars(n: u32) -> (r: Vec<char>)
    ensures
        r@ == dec_digits(n as int),
{
    let mut tmp: Vec<char> = Vec::new();
    let mut m: u32 = n;
    loop
        invariant_except_break
            dec_digits(n as int) == if tmp@.len() == 0 {
                dec_digits(m as int)
            } else {
                dec_digits(m as int) + tmp@.reverse()
            },
        invariant
            tmp@.len() == 0 ==> m == n,
        ensures
            dec_digits(n as int) == tmp@.reverse(),
        decreases m,
    {
        let dv: u32 = m % 10;
        let c: char = (dv as u8 + 48) as char;
        proof {
            assert(c == digit_char(dv as int));
            assert(tmp@.push(c).reverse() =~= seq![c] + tmp@.reverse());
            if m >= 10 {
                assert(dec_digits(m as int) == dec_digits(m as int / 10).push(
                    digit_char(m as int % 10),
                ));
                assert(dec_digits(m as int / 10) + tmp@.push(c).reverse() =~= dec_digits(
                    m as int,
                ) + tmp@.reverse());
            } else {
                assert(dec_digits(m as int) =~= seq![c]);
                assert(dec_digits(m as int) + tmp@.reverse() =~= tmp@.push(c).reverse());
            }
        }
        tmp.push(c);
        if m < 10 {
            break ;
        }
        m = m / 10;
    }
    let mut r: Vec<char> = Vec::new();
    let mut i = tmp.len();
    while i > 0
        invariant
            i <= tmp@.len(),
            r@ == tmp@.subrange(i as int, tmp@.len() as int).reverse(),
        decreases i,
    {
        i = i - 1;
        r.push(tmp[i]);
        proof {
            assert(tmp@.subrange(i as int, tmp@.len() as int).reverse() =~= tmp@.subrange(
                i + 1,
                tmp@.len() as int,
            ).reverse().push(tmp@[i as int]));
        }
    }
    proof {
        assert(tmp@.subrange(0, tmp@.len() as int) =~= tmp@);
    }
    r
}

/// Renders `n` in decimal.
pub fn u16_to_chars(n: u16) -> (r: Vec<char>)
    ensures
        r@ == dec_digits(n as int),
{
    u32_to_chars(n as u32)
}

} // verus!
