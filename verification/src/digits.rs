//! Decimal text: rendering unsigned integers (for order ids) and parsing
//! venue price strings into fixed-point values.

use vstd::prelude::*;
use vstd::string::StrSliceExecFns;
use crate::types::PRICE_SCALE;

verus! {

/// The decimal digit character of `d`, for `d < 10`.
pub open spec fn digit_char(d: nat) -> char {
    if d == 0 {
        '0'
    } else if d == 1 {
        '1'
    } else if d == 2 {
        '2'
    } else if d == 3 {
        '3'
    } else if d == 4 {
        '4'
    } else if d == 5 {
        '5'
    } else if d == 6 {
        '6'
    } else if d == 7 {
        '7'
    } else if d == 8 {
        '8'
    } else {
        '9'
    }
}

/// The decimal digits of `n`, most significant first, without leading
/// zeros (zero itself is `"0"`).
pub open spec fn spec_digits(n: nat) -> Seq<char>
    decreases n,
{
    if n < 10 {
        seq![digit_char(n)]
    } else {
        spec_digits(n / 10).push(digit_char(n % 10))
    }
}

/// Render `n` in decimal.
pub fn u64_to_string(n: u64) -> (s: String)
    ensures
        s@ == spec_digits(n as nat),
    decreases n,
{
    let mut s: String = if n >= 10 {
        u64_to_string(n / 10)
    } else {
        String::new()
    };
    let digit: &str = match n % 10 {
        0 => "0",
        1 => "1",
        2 => "2",
        3 => "3",
        4 => "4",
        5 => "5",
        6 => "6",
        7 => "7",
        8 => "8",
        _ => "9",
    };
    proof {
        reveal_strlit("0");
        reveal_strlit("1");
        reveal_strlit("2");
        reveal_strlit("3");
        reveal_strlit("4");
        reveal_strlit("5");
        reveal_strlit("6");
        reveal_strlit("7");
        reveal_strlit("8");
        reveal_strlit("9");
        assert(digit@ =~= seq![digit_char((n % 10) as nat)]);
        if n < 10 {
            assert(s@ + digit@ =~= seq![digit_char(n as nat)]);
        } else {
            assert(s@ + digit@ =~= spec_digits((n / 10) as nat).push(digit_char((n % 10) as nat)));
        }
    }
    s.append(digit);
    s
}

/// Whether `c` is a decimal digit.
pub open spec fn is_digit(c: char) -> bool {
    48 <= c as u32 <= 57
}

/// The value of the decimal digit `c`.
pub open spec fn digit_val(c: char) -> nat {
    (c as u32 - 48) as nat
}

/// Whether every character of `s` is a decimal digit.
pub open spec fn all_digits(s: Seq<char>) -> bool {
    forall|i: int| 0 <= i < s.len() ==> is_digit(#[trigger] s[i])
}

/// The value of a digit string, most significant first.
pub open spec fn digits_val(s: Seq<char>) -> nat
    decreases s.len(),
{
    if s.len() == 0 {
        0
    } else {
        10 * digits_val(s.drop_last()) + digit_val(s.last())
    }
}

/// Ten to the `k`-th power.
pub open spec fn pow10(k: nat) -> nat
    decreases k,
{
    if k == 0 {
        1
    } else {
        10 * pow10((k - 1) as nat)
    }
}

/// The index of the first `'.'` in `s`, or `s.len()` if there is none.
pub open spec fn find_dot(s: Seq<char>) -> int
    decreases s.len(),
{
    if s.len() == 0 {
        0
    } else if s[0] as u32 == 46 {
        0
    } else {
        1 + find_dot(s.drop_first())
    }
}

/// A well-formed price string: a non-empty run of digits, optionally
/// followed by `'.'` and one to six fractional digits.
pub open spec fn valid_price_str(s: Seq<char>) -> bool {
    let d = find_dot(s);
    &&& 0 < d
    &&& all_digits(s.take(d))
    &&& (d == s.len() || (d + 1 < s.len() && s.len() - (d + 1) <= 6 && all_digits(s.skip(d + 1))))
}

/// The fixed-point value of a well-formed price string: the integer part
/// scaled by [`PRICE_SCALE`], plus the fractional digits scaled out to six
/// places.
pub open spec fn price_value(s: Seq<char>) -> nat {
    let d = find_dot(s);
    let ip = digits_val(s.take(d));
    let frac = if d >= s.len() {
        0
    } else {
        digits_val(s.skip(d + 1)) * pow10((6 - (s.len() - (d + 1))) as nat)
    };
    ip * (PRICE_SCALE as nat) + frac
}

/// What parsing a price string yields: its fixed-point value, where the
/// string is well formed and the value representable — nothing otherwise.
pub open spec fn parse_price_spec(s: Seq<char>) -> Option<u64> {
    if valid_price_str(s) && price_value(s) <= u64::MAX {
        Some(price_value(s) as u64)
    } else {
        None
    }
}

/// `find_dot` names the first dot: everything before it is not a dot, and
/// it is a dot unless there is none.
proof fn lemma_find_dot(s: Seq<char>)
    ensures
        0 <= find_dot(s) <= s.len(),
        find_dot(s) < s.len() ==> s[find_dot(s)] as u32 == 46,
        forall|j: int| 0 <= j < find_dot(s) ==> (#[trigger] s[j]) as u32 != 46,
    decreases s.len(),
{
    if s.len() > 0 && s[0] as u32 != 46 {
        lemma_find_dot(s.drop_first());
        assert forall|j: int| 0 <= j < find_dot(s) implies (#[trigger] s[j]) as u32 != 46 by {
            if j > 0 {
                assert(s.drop_first()[j - 1] == s[j]);
            }
        }
        if find_dot(s) < s.len() {
            assert(s.drop_first()[find_dot(s.drop_first())] == s[find_dot(s)]);
        }
    }
}

/// One more digit multiplies the prefix value by ten.
proof fn lemma_digits_val_take_step(s: Seq<char>, j: int)
    requires
        0 <= j < s.len(),
    ensures
        digits_val(s.take(j + 1)) == 10 * digits_val(s.take(j)) + digit_val(s[j]),
{
    assert(s.take(j + 1).drop_last() =~= s.take(j));
    assert(s.take(j + 1).last() == s[j]);
}

/// Longer digit prefixes never have smaller values.
proof fn lemma_digits_val_take_mono(s: Seq<char>, j: int, k: int)
    requires
        0 <= j <= k <= s.len(),
    ensures
        digits_val(s.take(j)) <= digits_val(s.take(k)),
    decreases k - j,
{
    if j < k {
        lemma_digits_val_take_mono(s, j, k - 1);
        lemma_digits_val_take_step(s, k - 1);
    }
}

/// The first seven powers of ten.
proof fn lemma_pow10_small()
    ensures
        pow10(0) == 1,
        pow10(1) == 10,
        pow10(2) == 100,
        pow10(3) == 1_000,
        pow10(4) == 10_000,
        pow10(5) == 100_000,
        pow10(6) == 1_000_000,
{
    assert(pow10(0) == 1);
    assert(pow10(1) == 10);
    assert(pow10(2) == 100);
    assert(pow10(3) == 1_000);
    assert(pow10(4) == 10_000);
    assert(pow10(5) == 100_000);
    assert(pow10(6) == 1_000_000);
}

/// Ten to the `k`-th power, for `k` up to six.
fn pow10_small(k: usize) -> (r: u64)
    requires
        k <= 6,
    ensures
        r == pow10(k as nat),
{
    proof {
        lemma_pow10_small();
    }
    match k {
        0 => 1,
        1 => 10,
        2 => 100,
        3 => 1_000,
        4 => 10_000,
        5 => 100_000,
        _ => 1_000_000,
    }
}

/// Parse a venue price string — digits with an optional fractional part of
/// up to six places, such as `"0.605"` — into its fixed-point value.
/// Returns nothing where the string is malformed or the value does not fit.
pub fn parse_price(s: &str) -> (r: Option<u64>)
    ensures
        r == parse_price_spec(s@),
{
    let n = s.unicode_len();
    let ghost chars = s@;
    proof {
        lemma_find_dot(chars);
    }
    // find the first dot
    let mut dot: usize = n;
    let mut i: usize = 0;
    while i < n && dot == n
        invariant
            n == chars.len(),
            chars == s@,
            i <= n,
            dot <= n,
            dot == n ==> forall|j: int| 0 <= j < i ==> (#[trigger] chars[j]) as u32 != 46,
            dot < n ==> chars[dot as int] as u32 == 46 && (forall|j: int|
                0 <= j < dot ==> (#[trigger] chars[j]) as u32 != 46),
        decreases n - i, (if dot == n { 1int } else { 0int }),
    {
        if s.get_char(i) as u32 == 46 {
            dot = i;
        } else {
            i += 1;
        }
    }
    proof {
        if dot < n {
            if find_dot(chars) < dot {
                assert(chars[find_dot(chars)] as u32 != 46);
            }
            if find_dot(chars) > dot {
                assert(chars[dot as int] as u32 != 46);
            }
        } else {
            if find_dot(chars) < n {
                assert(chars[find_dot(chars)] as u32 != 46);
            }
        }
        assert(dot == find_dot(chars));
    }
    if dot == 0 {
        return None;
    }
    // the integer part must be digits
    let mut j: usize = 0;
    while j < dot
        invariant
            n == chars.len(),
            chars == s@,
            dot <= n,
            dot == find_dot(chars),
            0 < dot,
            j <= dot,
            forall|k: int| 0 <= k < j ==> is_digit(#[trigger] chars[k]),
        decreases dot - j,
    {
        let c = s.get_char(j) as u32;
        if !(48 <= c && c <= 57) {
            proof {
                assert(chars.take(dot as int)[j as int] == chars[j as int]);
                assert(!all_digits(chars.take(dot as int)));
            }
            return None;
        }
        j += 1;
    }
    proof {
        assert forall|k: int| 0 <= k < chars.take(dot as int).len()
            implies is_digit(#[trigger] chars.take(dot as int)[k]) by {
            assert(chars.take(dot as int)[k] == chars[k]);
        }
    }
    // the fractional part, if any, must be one to six digits
    let frac_len: usize = if dot < n {
        if dot + 1 >= n {
            return None;
        }
        if n - (dot + 1) > 6 {
            return None;
        }
        let mut j: usize = dot + 1;
        while j < n
            invariant
                n == chars.len(),
                chars == s@,
                dot + 1 < n,
                dot == find_dot(chars),
                dot + 1 <= j <= n,
                forall|k: int| dot + 1 <= k < j ==> is_digit(#[trigger] chars[k]),
            decreases n - j,
        {
            let c = s.get_char(j) as u32;
            if !(48 <= c && c <= 57) {
                proof {
                    assert(chars.skip(dot + 1)[j - (dot + 1)] == chars[j as int]);
                    assert(!all_digits(chars.skip(dot + 1)));
                }
                return None;
            }
            j += 1;
        }
        proof {
            assert forall|k: int| 0 <= k < chars.skip(dot + 1).len()
                implies is_digit(#[trigger] chars.skip(dot + 1)[k]) by {
                assert(chars.skip(dot + 1)[k] == chars[k + dot + 1]);
            }
        }
        n - (dot + 1)
    } else {
        0
    };
    proof {
        assert(valid_price_str(chars));
    }
    // the integer part's value
    let mut ip: u128 = 0;
    let mut j: usize = 0;
    proof {
        assert(chars.take(0) =~= Seq::<char>::empty());
    }
    while j < dot
        invariant
            n == chars.len(),
            chars == s@,
            dot <= n,
            dot == find_dot(chars),
            0 < dot,
            valid_price_str(chars),
            j <= dot,
            forall|k: int| 0 <= k < dot ==> is_digit(#[trigger] chars[k]),
            ip == digits_val(chars.take(j as int)),
            ip <= u64::MAX,
        decreases dot - j,
    {
        let c = s.get_char(j) as u32;
        proof {
            assert(is_digit(chars[j as int]));
            lemma_digits_val_take_step(chars, j as int);
        }
        let next: u128 = ip * 10 + ((c - 48) as u128);
        if next > u64::MAX as u128 {
            proof {
                lemma_digits_val_take_mono(chars, j + 1, dot as int);
                assert(chars.take(dot as int) =~= chars.take(find_dot(chars)));
                assert(price_value(chars) >= digits_val(chars.take(find_dot(chars)))
                    * (PRICE_SCALE as nat)) by {
                    assert(digits_val(chars.take(find_dot(chars))) * (PRICE_SCALE as nat)
                        >= digits_val(chars.take(find_dot(chars))) * 1) by (nonlinear_arith);
                }
                assert(digits_val(chars.take(find_dot(chars))) * (PRICE_SCALE as nat)
                    >= digits_val(chars.take(find_dot(chars)))) by (nonlinear_arith);
                assert(price_value(chars) > u64::MAX);
            }
            return None;
        }
        ip = next;
        j += 1;
    }
    proof {
        assert(chars.take(dot as int) =~= chars.take(find_dot(chars)));
    }
    // the fractional part's value, scaled to six places
    let frac: u64 = if frac_len > 0 {
        let mut acc: u64 = 0;
        let mut j: usize = dot + 1;
        proof {
            lemma_pow10_small();
            assert(chars.skip(dot + 1).take(0) =~= Seq::<char>::empty());
        }
        while j < n
            invariant
                n == chars.len(),
                chars == s@,
                dot + 1 < n,
                dot == find_dot(chars),
                n - (dot + 1) <= 6,
                frac_len == n - (dot + 1),
                dot + 1 <= j <= n,
                all_digits(chars.skip(dot + 1)),
                acc == digits_val(chars.skip(dot + 1).take(j - (dot + 1))),
                acc < pow10((j - (dot + 1)) as nat),
                pow10((j - (dot + 1)) as nat) <= 1_000_000,
            decreases n - j,
        {
            let c = s.get_char(j) as u32;
            proof {
                assert(chars.skip(dot + 1)[j - (dot + 1)] == chars[j as int]);
                assert(is_digit(chars[j as int]));
                lemma_digits_val_take_step(chars.skip(dot + 1), j - (dot + 1));
                lemma_pow10_small();
                lemma_pow10_take_mono(n - (dot + 1), (j + 1) - (dot + 1));
            }
            acc = acc * 10 + ((c - 48) as u64);
            j += 1;
        }
        proof {
            assert(chars.skip(dot + 1).take(n - (dot + 1)) =~= chars.skip(dot + 1));
            lemma_pow10_small();
        }
        let scale = pow10_small(6 - frac_len);
        proof {
            lemma_pow10_small();
            assert(acc * scale < 1_000_000 * 1_000_000) by (nonlinear_arith)
                requires
                    acc < 1_000_000,
                    scale <= 1_000_000,
            ;
        }
        acc * scale
    } else {
        0
    };
    proof {
        if find_dot(chars) >= chars.len() {
            assert(frac == 0);
        } else {
            assert(frac == digits_val(chars.skip(find_dot(chars) + 1)) * pow10(
                (6 - (chars.len() - (find_dot(chars) + 1))) as nat,
            ));
        }
    }
    let total: u128 = ip * (PRICE_SCALE as u128) + (frac as u128);
    proof {
        assert(total == price_value(chars));
    }
    if total > u64::MAX as u128 {
        None
    } else {
        Some(total as u64)
    }
}

/// `pow10` never shrinks as the exponent grows; stated for exponents up to
/// six, where it is bounded by a million.
proof fn lemma_pow10_take_mono(bound: int, k: int)
    requires
        0 <= k <= bound <= 6,
    ensures
        pow10(k as nat) <= 1_000_000,
    decreases k,
{
    lemma_pow10_small();
    if k > 0 {
        lemma_pow10_take_mono(bound, k - 1);
        assert(pow10(k as nat) == 10 * pow10((k - 1) as nat));
        lemma_pow10_mono_step(k);
    }
}

/// `pow10(k) <= pow10(6)` for `k <= 6`.
proof fn lemma_pow10_mono_step(k: int)
    requires
        0 < k <= 6,
    ensures
        pow10(k as nat) <= 1_000_000,
{
    lemma_pow10_small();
    if k == 1 {
    } else if k == 2 {
    } else if k == 3 {
    } else if k == 4 {
    } else if k == 5 {
    } else {
    }
}

} // verus!
