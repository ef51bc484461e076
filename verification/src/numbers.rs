//! Decimal numerals: what a number looks like in decimal, what a decimal
//! string is worth, and executable printing and parsing proved against both.

use vstd::prelude::*;

verus! {

/// The character for one decimal digit.
pub open spec fn digit_char(d: int) -> char
    recommends
        0 <= d < 10,
{
    if d == 0 {
        '0'
    } else if d == 1 {
        '1'
    } else if d == 2 {
        '2'
    } else if d == 3 {
        '3'
    } else if d == 4 {
        '4'
    } else if d == 5 {
        '5'
    } else if d == 6 {
        '6'
    } else if d == 7 {
        '7'
    } else if d == 8 {
        '8'
    } else {
        '9'
    }
}

/// Whether `c` is a decimal digit character.
pub open spec fn is_digit(c: char) -> bool {
    48 <= c as int && c as int <= 57
}

/// The numeric value of a digit character.
pub open spec fn digit_val(c: char) -> int
    recommends
        is_digit(c),
{
    c as int - 48
}

/// The canonical decimal rendering of a natural number; no leading zeros
/// except for the single digit of zero itself.
pub open spec fn dec_string(n: nat) -> Seq<char>
    decreases n,
{
    if n < 10 {
        seq![digit_char(n as int)]
    } else {
        dec_string(n / 10) + seq![digit_char((n % 10) as int)]
    }
}

/// The decimal rendering of a signed number: a minus sign, if negative,
/// before the magnitude.
pub open spec fn dec_string_signed(n: int) -> Seq<char> {
    if n >= 0 {
        dec_string(n as nat)
    } else {
        seq!['-'] + dec_string((-n) as nat)
    }
}

/// Whether every character of `s` is a decimal digit.
pub open spec fn all_digits(s: Seq<char>) -> bool {
    forall|i: int| 0 <= i < s.len() ==> is_digit(#[trigger] s[i])
}

/// The value of a string of decimal digits, most significant first.
pub open spec fn dec_value(s: Seq<char>) -> int
    decreases s.len(),
{
    if s.len() == 0 {
        0
    } else {
        dec_value(s.drop_last()) * 10 + digit_val(s.last())
    }
}

/// The digits of a decimal numeral: everything after an optional leading
/// plus sign.
pub open spec fn digits_part(s: Seq<char>) -> Seq<char> {
    if s.len() > 0 && s[0] == '+' {
        s.drop_first()
    } else {
        s
    }
}

/// When parsing `s` as a `usize` succeeds: an optional plus sign, then at
/// least one digit, and a value that fits in the type.
pub open spec fn usize_parse_ok(s: Seq<char>) -> bool {
    digits_part(s).len() > 0 && all_digits(digits_part(s)) && dec_value(digits_part(s))
        <= usize::MAX
}

/// The value a successful `usize` parse of `s` yields.
pub open spec fn usize_parse_val(s: Seq<char>) -> int {
    dec_value(digits_part(s))
}

/// A string of digits is worth a non-negative amount.
pub proof fn lemma_dec_value_nonneg(s: Seq<char>)
    requires
        all_digits(s),
    ensures
        dec_value(s) >= 0,
    decreases s.len(),
{
    if s.len() > 0 {
        assert forall|i: int| 0 <= i < s.drop_last().len() implies is_digit(
            #[trigger] s.drop_last()[i],
        ) by {
            assert(s.drop_last()[i] == s[i]);
        }
        lemma_dec_value_nonneg(s.drop_last());
        assert(is_digit(s[s.len() - 1]));
    }
}

/// Extending a string of digits on the right never lowers its value.
pub proof fn lemma_dec_value_prefix(s: Seq<char>, i: int)
    requires
        all_digits(s),
        0 <= i <= s.len(),
    ensures
        dec_value(s.subrange(0, i)) <= dec_value(s),
    decreases s.len() - i,
{
    if i == s.len() {
        assert(s.subrange(0, i) =~= s);
    } else {
        assert forall|j: int| 0 <= j < s.drop_last().len() implies is_digit(
            #[trigger] s.drop_last()[j],
        ) by {
            assert(s.drop_last()[j] == s[j]);
        }
        lemma_dec_value_prefix(s.drop_last(), i);
        assert(s.drop_last().subrange(0, i) =~= s.subrange(0, i));
        lemma_dec_value_nonneg(s.drop_last());
        assert(is_digit(s[s.len() - 1]));
    }
}

/// A printed number is all digits, never empty, and worth the number it
/// was printed from.
pub proof fn lemma_dec_string_value(n: nat)
    ensures
        dec_string(n).len() >= 1,
        all_digits(dec_string(n)),
        dec_value(dec_string(n)) == n,
    decreases n,
{
    if n < 10 {
        assert(dec_string(n) =~= seq![digit_char(n as int)]);
        assert(dec_string(n).drop_last() =~= Seq::<char>::empty());
        assert(dec_value(Seq::<char>::empty()) == 0);
    } else {
        lemma_dec_string_value(n / 10);
        let s = dec_string(n);
        assert(s =~= dec_string(n / 10) + seq![digit_char((n % 10) as int)]);
        assert(s.drop_last() =~= dec_string(n / 10));
        assert(s.last() == digit_char((n % 10) as int));
        assert forall|i: int| 0 <= i < s.len() implies is_digit(#[trigger] s[i]) by {
            if i < s.len() - 1 {
                assert(s[i] == dec_string(n / 10)[i]);
            }
        }
        assert(dec_value(s) == dec_value(dec_string(n / 10)) * 10 + digit_val(s.last()));
        assert(n == (n / 10) * 10 + n % 10);
    }
}

/// Printing a number that fits in a `usize` and parsing the text back
/// yields the number again.
pub proof fn lemma_print_parse_round_trip(n: nat)
    requires
        n <= usize::MAX,
    ensures
        usize_parse_ok(dec_string(n)),
        usize_parse_val(dec_string(n)) == n,
{
    lemma_dec_string_value(n);
    assert(is_digit(dec_string(n)[0]));
    assert(dec_string(n)[0] != '+');
    assert(digits_part(dec_string(n)) == dec_string(n));
}

/// Parses `s` as an unsigned decimal integer, the way `usize` reads a
/// string: an optional leading plus sign, then one or more digits, rejected
/// when empty, when any other character occurs, or when the value does not
/// fit.
pub fn parse_usize(s: &str) -> (r: Option<usize>)
    ensures
        r is Some <==> usize_parse_ok(s@),
        r matches Some(v) ==> v == usize_parse_val(s@),
{
    let n: usize = s.unicode_len();
    let start: usize = if n > 0 && s.get_char(0) == '+' {
        1
    } else {
        0
    };
    proof {
        assert(digits_part(s@) =~= s@.subrange(start as int, n as int));
    }
    if start == n {
        return None;
    }
    let mut i: usize = start;
    let mut acc: usize = 0;
    while i < n
        invariant
            start <= i <= n,
            start < n,
            n == s@.len(),
            digits_part(s@) =~= s@.subrange(start as int, n as int),
            all_digits(s@.subrange(start as int, i as int)),
            acc == dec_value(s@.subrange(start as int, i as int)),
        decreases n - i,
    {
        let c: char = s.get_char(i);
        let u: u32 = c as u32;
        let ghost pre = s@.subrange(start as int, i + 1);
        proof {
            assert(pre.drop_last() =~= s@.subrange(start as int, i as int));
            assert(pre.last() == s@[i as int]);
        }
        if u < 48 || u > 57 {
            proof {
                assert(!is_digit(s@[i as int]));
                assert(digits_part(s@)[i - start] == s@[i as int]);
            }
            return None;
        }
        let d: usize = (u - 48) as usize;
        proof {
            assert(is_digit(s@[i as int]));
            assert(digit_val(s@[i as int]) == d);
        }
        if acc > (usize::MAX - d) / 10 {
            proof {
                let m = (usize::MAX - d) as int;
                assert(m == (m / 10) * 10 + m % 10);
                assert(acc * 10 >= (m / 10) * 10 + 10);
                assert(acc * 10 + d > usize::MAX);
                assert(dec_value(pre) == acc * 10 + d);
                let dp = digits_part(s@);
                if all_digits(dp) {
                    lemma_dec_value_prefix(dp, i + 1 - start);
                    assert(dp.subrange(0, i + 1 - start) =~= pre);
                }
            }
            return None;
        }
        proof {
            let m = (usize::MAX - d) as int;
            assert(m == (m / 10) * 10 + m % 10);
            assert(acc * 10 <= (m / 10) * 10);
            assert(acc * 10 + d <= usize::MAX);
            assert(dec_value(pre) == acc * 10 + d);
            assert forall|j: int| 0 <= j < pre.len() implies is_digit(#[trigger] pre[j]) by {
                if j < pre.len() - 1 {
                    assert(pre[j] == s@.subrange(start as int, i as int)[j]);
                }
            }
        }
        acc = acc * 10 + d;
        i = i + 1;
    }
    proof {
        assert(s@.subrange(start as int, i as int) =~= digits_part(s@));
    }
    Some(acc)
}

fn digit_str(d: u64) -> (r: &'static str)
    requires
        d < 10,
    ensures
        r@ == seq![digit_char(d as int)],
{
    let r: &'static str = if d == 0 {
        "0"
    } else if d == 1 {
        "1"
    } else if d == 2 {
        "2"
    } else if d == 3 {
        "3"
    } else if d == 4 {
        "4"
    } else if d == 5 {
        "5"
    } else if d == 6 {
        "6"
    } else if d == 7 {
        "7"
    } else if d == 8 {
        "8"
    } else {
        "9"
    };
    proof {
        reveal_strlit("0");
        reveal_strlit("1");
        reveal_strlit("2");
        reveal_strlit("3");
        reveal_strlit("4");
        reveal_strlit("5");
        reveal_strlit("6");
        reveal_strlit("7");
        reveal_strlit("8");
        reveal_strlit("9");
        assert(r@ =~= seq![digit_char(d as int)]);
    }
    r
}

/// Prints `n` in decimal, matching `dec_string`.
pub fn fmt_u64(n: u64) -> (r: String)
    ensures
        r@ == dec_string(n as nat),
    decreases n,
{
    let last: u64 = n % 10;
    if n < 10 {
        String::from_str(digit_str(last))
    } else {
        let mut r = fmt_u64(n / 10);
        r.append(digit_str(last));
        r
    }
}

/// Prints `n` in decimal, matching `dec_string`.
pub fn fmt_usize(n: usize) -> (r: String)
    ensures
        r@ == dec_string(n as nat),
{
    fmt_u64(n as u64)
}

/// Prints `n` in decimal with its sign, matching `dec_string_signed`.
pub fn fmt_isize(n: isize) -> (r: String)
    ensures
        r@ == dec_string_signed(n as int),
{
    if n >= 0 {
        fmt_u64(n as u64)
    } else {
        let mag: u64 = ((-1 - n) as u64) + 1;
        assert(mag as int == -(n as int));
        let s = fmt_u64(mag);
        let r = String::from_str("-").concat(s.as_str());
        proof {
            reveal_strlit("-");
            assert(r@ =~= dec_string_signed(n as int));
        }
        r
    }
}

} // verus!
