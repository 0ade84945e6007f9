//! Text helpers: positional number formatting and prefix tests on strings.
use vstd::prelude::*;
use vstd::string::StrSliceExecFns;
use vstd::string::StringExecFns;

verus! {

/// The character that stands for the digit `d` (`0`-`9`, then `a`-`z`).
pub open spec fn digit_char(d: nat) -> char {
    if d < 10 {
        (48 + d) as char
    } else {
        (87 + d) as char
    }
}

/// The digits of `n` in base `base`, most significant first, without leading zeros
/// (zero itself is the single digit `0`).
pub open spec fn radix_text(n: nat, base: nat) -> Seq<char>
    decreases n,
{
    if base < 2 || n < base {
        seq![digit_char(n)]
    } else {
        proof {
            vstd::arithmetic::div_mod::lemma_div_decreases(n as int, base as int);
        }
        radix_text(n / base, base).push(digit_char(n % base))
    }
}

/// Decimal text of a natural number, as `{}` prints it.
pub open spec fn decimal_text(n: nat) -> Seq<char> {
    radix_text(n, 10)
}

/// Decimal text of an integer, with a leading `-` when it is negative, as `{}` prints it.
pub open spec fn signed_decimal_text(n: int) -> Seq<char> {
    if n < 0 {
        seq!['-'] + decimal_text((-n) as nat)
    } else {
        decimal_text(n as nat)
    }
}

/// Lower-case hexadecimal text with a `0x` prefix, as `{:#x}` prints it.
pub open spec fn alt_hex_text(n: nat) -> Seq<char> {
    seq!['0', 'x'] + radix_text(n, 16)
}

/// The value of a digit character (`0`-`9`, `a`-`z`).
pub open spec fn digit_value(c: char) -> int {
    if (c as int) < 58 {
        (c as int) - 48
    } else {
        (c as int) - 87
    }
}

/// The number that a sequence of digits in base `base` stands for.
pub open spec fn radix_value(s: Seq<char>, base: nat) -> int
    decreases s.len(),
{
    if s.len() == 0 {
        0
    } else {
        radix_value(s.drop_last(), base) * base + digit_value(s.last())
    }
}

/// Reading the digits of `n` back in the same base gives `n` again, and the first digit is
/// zero only for zero itself.
pub proof fn lemma_radix_text_roundtrip(n: nat, base: nat)
    requires
        2 <= base <= 16,
    ensures
        radix_value(radix_text(n, base), base) == n,
        radix_text(n, base).len() > 0,
        radix_text(n, base)[0] == '0' ==> n == 0,
    decreases n,
{
    if n < base {
        assert(radix_text(n, base) =~= seq![digit_char(n)]);
        assert(seq![digit_char(n)].drop_last() =~= Seq::<char>::empty());
        assert(digit_value(digit_char(n)) == n);
        assert(radix_value(seq![digit_char(n)], base) == radix_value(Seq::<char>::empty(), base)
            * base + digit_value(digit_char(n)));
    } else {
        vstd::arithmetic::div_mod::lemma_div_decreases(n as int, base as int);
        lemma_radix_text_roundtrip(n / base, base);
        let prev = radix_text(n / base, base);
        let d = n % base;
        assert(radix_text(n, base) == prev.push(digit_char(d)));
        assert(prev.push(digit_char(d)).drop_last() =~= prev);
        vstd::arithmetic::div_mod::lemma_fundamental_div_mod(n as int, base as int);
        assert(d < base) by {
            vstd::arithmetic::div_mod::lemma_mod_bound(n as int, base as int);
        }
        assert(digit_value(digit_char(d)) == d);
        assert(n / base > 0) by {
            vstd::arithmetic::div_mod::lemma_div_non_zero(n as int, base as int);
        }
        assert(prev.push(digit_char(d))[0] == prev[0]);
        let q = n / base;
        assert(radix_value(prev, base) == q);
        assert(radix_value(radix_text(n, base), base) == q * base + d);
        assert(q * base + d == n) by (nonlinear_arith)
            requires
                n == base * q + d,
        ;
    }
}

/// Every digit is `0`-`9` or a lower-case letter from `a` on, and stands for a value below
/// the base.
pub proof fn lemma_radix_text_digits(n: nat, base: nat)
    requires
        2 <= base <= 16,
    ensures
        forall|i: int|
            0 <= i < radix_text(n, base).len() ==> {
                let c = #[trigger] radix_text(n, base)[i];
                &&& ('0' <= c <= '9' || 'a' <= c <= 'f')
                &&& 0 <= digit_value(c) < base
            },
    decreases n,
{
    if n < base {
        assert(radix_text(n, base) =~= seq![digit_char(n)]);
    } else {
        vstd::arithmetic::div_mod::lemma_div_decreases(n as int, base as int);
        lemma_radix_text_digits(n / base, base);
        let prev = radix_text(n / base, base);
        let d = n % base;
        assert(d < base) by {
            vstd::arithmetic::div_mod::lemma_mod_bound(n as int, base as int);
        }
        assert forall|i: int| 0 <= i < radix_text(n, base).len() implies {
            let c = #[trigger] radix_text(n, base)[i];
            &&& ('0' <= c <= '9' || 'a' <= c <= 'f')
            &&& 0 <= digit_value(c) < base
        } by {
            if i < prev.len() {
                assert(radix_text(n, base)[i] == prev[i]);
            } else {
                assert(radix_text(n, base)[i] == digit_char(d));
            }
        }
    }
}

/// Printed numbers read back: hexadecimal text is `0x` followed by the lower-case digits of
/// the number; signed decimal text is `-` followed by the digits of the magnitude exactly for
/// negative numbers.
pub proof fn lemma_printed_numbers(n: nat, m: int)
    ensures
        alt_hex_text(n).len() >= 3,
        alt_hex_text(n)[0] == '0' && alt_hex_text(n)[1] == 'x',
        radix_value(alt_hex_text(n).subrange(2, alt_hex_text(n).len() as int), 16) == n,
        radix_value(decimal_text(n), 10) == n,
        (signed_decimal_text(m)[0] == '-') == (m < 0),
        m < 0 ==> radix_value(signed_decimal_text(m).subrange(1, signed_decimal_text(m).len() as int), 10) == -m,
        m >= 0 ==> radix_value(signed_decimal_text(m), 10) == m,
{
    lemma_radix_text_roundtrip(n, 16);
    lemma_radix_text_roundtrip(n, 10);
    lemma_radix_text_digits(n, 16);
    assert(alt_hex_text(n).subrange(2, alt_hex_text(n).len() as int) =~= radix_text(n, 16));
    if m < 0 {
        lemma_radix_text_roundtrip((-m) as nat, 10);
        assert(signed_decimal_text(m).subrange(1, signed_decimal_text(m).len() as int) =~= decimal_text(
            (-m) as nat,
        ));
    } else {
        lemma_radix_text_roundtrip(m as nat, 10);
        lemma_radix_text_digits(m as nat, 10);
        assert(signed_decimal_text(m)[0] == radix_text(m as nat, 10)[0]);
    }
}

/// The one-character string of a digit below sixteen.
fn digit_str(d: u64) -> (r: &'static str)
    requires
        d < 16,
    ensures
        r@ == seq![digit_char(d as nat)],
{
    match d {
        0 => {
            proof {
                reveal_strlit("0");
            }
            "0"
        },
        1 => {
            proof {
                reveal_strlit("1");
            }
            "1"
        },
        2 => {
            proof {
                reveal_strlit("2");
            }
            "2"
        },
        3 => {
            proof {
                reveal_strlit("3");
            }
            "3"
        },
        4 => {
            proof {
                reveal_strlit("4");
            }
            "4"
        },
        5 => {
            proof {
                reveal_strlit("5");
            }
            "5"
        },
        6 => {
            proof {
                reveal_strlit("6");
            }
            "6"
        },
        7 => {
            proof {
                reveal_strlit("7");
            }
            "7"
        },
        8 => {
            proof {
                reveal_strlit("8");
            }
            "8"
        },
        9 => {
            proof {
                reveal_strlit("9");
            }
            "9"
        },
        10 => {
            proof {
                reveal_strlit("a");
            }
            "a"
        },
        11 => {
            proof {
                reveal_strlit("b");
            }
            "b"
        },
        12 => {
            proof {
                reveal_strlit("c");
            }
            "c"
        },
        13 => {
            proof {
                reveal_strlit("d");
            }
            "d"
        },
        14 => {
            proof {
                reveal_strlit("e");
            }
            "e"
        },
        _ => {
            proof {
                reveal_strlit("f");
            }
            "f"
        },
    }
}

/// The digits of `n` in base `base` (2 to 16).
pub fn radix_string(n: u64, base: u64) -> (r: String)
    requires
        2 <= base <= 16,
    ensures
        r@ == radix_text(n as nat, base as nat),
    decreases n,
{
    if n < base {
        String::from_str(digit_str(n))
    } else {
        proof {
            vstd::arithmetic::div_mod::lemma_div_decreases(n as int, base as int);
        }
        let mut s = radix_string(n / base, base);
        s.append(digit_str(n % base));
        s
    }
}

/// Decimal text of an unsigned number.
pub fn decimal_string(n: u64) -> (r: String)
    ensures
        r@ == decimal_text(n as nat),
{
    radix_string(n, 10)
}

/// Decimal text of a signed number, with `-` before a negative one.
pub fn signed_decimal_string(n: i64) -> (r: String)
    ensures
        r@ == signed_decimal_text(n as int),
{
    if n < 0 {
        let magnitude: u64 = (-(n as i128)) as u64;
        let mut s = String::from_str("-");
        proof {
            reveal_strlit("-");
        }
        let digits = decimal_string(magnitude);
        s.append(digits.as_str());
        s
    } else {
        decimal_string(n as u64)
    }
}

/// Lower-case hexadecimal text with a `0x` prefix.
pub fn alt_hex_string(n: u64) -> (r: String)
    ensures
        r@ == alt_hex_text(n as nat),
{
    let mut s = String::from_str("0x");
    proof {
        reveal_strlit("0x");
    }
    let digits = radix_string(n, 16);
    s.append(digits.as_str());
    s
}

/// Whether `s` begins with `prefix`, character by character.
pub fn str_starts_with(s: &str, prefix: &str) -> (r: bool)
    ensures
        r == prefix@.is_prefix_of(s@),
{
    let n = prefix.unicode_len();
    let m = s.unicode_len();
    if n > m {
        return false;
    }
    let mut i: usize = 0;
    while i < n
        invariant
            n == prefix@.len(),
            m == s@.len(),
            n <= m,
            i <= n,
            forall|j: int| 0 <= j < i ==> prefix@[j] == s@[j],
        decreases n - i,
    {
        if prefix.get_char(i) != s.get_char(i) {
            assert(prefix@[i as int] != s@.subrange(0, n as int)[i as int]);
            return false;
        }
        i += 1;
    }
    assert(prefix@ =~= s@.subrange(0, n as int));
    true
}

/// Whether two strings hold the same characters.
pub fn str_equals(a: &str, b: &str) -> (r: bool)
    ensures
        r == (a@ == b@),
{
    if a.unicode_len() != b.unicode_len() {
        return false;
    }
    let r = str_starts_with(a, b);
    proof {
        if r {
            assert(a@ =~= b@);
        }
    }
    r
}

/// A string made of the three parts in order.
pub fn concat3(a: &str, b: &str, c: &str) -> (r: String)
    ensures
        r@ == a@ + b@ + c@,
{
    let mut s = String::from_str(a);
    s.append(b);
    s.append(c);
    s
}

} // verus!
