//! Decimal text: rendering unsigned numbers as strings, two-digit zero
//! padding for dates and operator identifiers, and reading a number back
//! from a string of digits.

use vstd::prelude::*;
use vstd::string::StrSliceExecFns;
use vstd::string::StringExecFns;
use vstd::string::StringSliceAdditionalSpecFns;

verus! {

/// The character of a single decimal digit.
pub open spec fn digit_char(d: int) -> char {
    if d == 0 {
        '0'
    } else if d == 1 {
        '1'
    } else if d == 2 {
        '2'
    } else if d == 3 {
        '3'
    } else if d == 4 {
        '4'
    } else if d == 5 {
        '5'
    } else if d == 6 {
        '6'
    } else if d == 7 {
        '7'
    } else if d == 8 {
        '8'
    } else {
        '9'
    }
}

/// The decimal rendering of a nonnegative number, most significant digit
/// first, with no leading zeroes except for zero itself.
pub open spec fn dec_seq(n: int) -> Seq<char>
    recommends
        n >= 0,
    decreases n,
{
    if n < 10 {
        seq![digit_char(n)]
    } else {
        dec_seq(n / 10).push(digit_char(n % 10))
    }
}

/// The decimal rendering padded to at least two characters with a leading
/// zero, as a date or a clock field is written.
pub open spec fn pad2_seq(n: int) -> Seq<char> {
    if n < 10 {
        seq!['0'] + dec_seq(n)
    } else {
        dec_seq(n)
    }
}

/// The single-character string of a decimal digit.
fn digit_str(d: u64) -> (r: &'static str)
    requires
        d < 10,
    ensures
        r@ == seq![digit_char(d as int)],
{
    proof {
        reveal_strlit("0");
        reveal_strlit("1");
        reveal_strlit("2");
        reveal_strlit("3");
        reveal_strlit("4");
        reveal_strlit("5");
        reveal_strlit("6");
        reveal_strlit("7");
        reveal_strlit("8");
        reveal_strlit("9");
    }
    let r: &'static str = if d == 0 {
        "0"
    } else if d == 1 {
        "1"
    } else if d == 2 {
        "2"
    } else if d == 3 {
        "3"
    } else if d == 4 {
        "4"
    } else if d == 5 {
        "5"
    } else if d == 6 {
        "6"
    } else if d == 7 {
        "7"
    } else if d == 8 {
        "8"
    } else {
        "9"
    };
    assert(r@ =~= seq![digit_char(d as int)]);
    r
}

/// Renders a number in decimal.
pub fn dec_string(n: u64) -> (r: String)
    ensures
        r@ == dec_seq(n as int),
    decreases n,
{
    if n < 10 {
        String::from_str(digit_str(n))
    } else {
        let mut s = dec_string(n / 10);
        s.append(digit_str(n % 10));
        assert(s@ =~= dec_seq(n as int));
        s
    }
}

/// Renders a number in decimal, padded to at least two characters with a
/// leading zero.
pub fn pad2_string(n: u64) -> (r: String)
    ensures
        r@ == pad2_seq(n as int),
{
    if n < 10 {
        let mut s = String::from_str("0");
        proof {
            reveal_strlit("0");
        }
        s.append(digit_str(n));
        assert(s@ =~= pad2_seq(n as int));
        s
    } else {
        dec_string(n)
    }
}

/// A character is a decimal digit.
pub open spec fn is_dec_digit(c: char) -> bool {
    48 <= c as int <= 57
}

/// Every character of the sequence is a decimal digit.
pub open spec fn all_dec_digits(s: Seq<char>) -> bool {
    forall|i: int| 0 <= i < s.len() ==> is_dec_digit(#[trigger] s[i])
}

/// The number a sequence of digit characters denotes, most significant
/// first.
pub open spec fn dec_value(s: Seq<char>) -> int
    decreases s.len(),
{
    if s.len() == 0 {
        0
    } else {
        dec_value(s.drop_last()) * 10 + s.last() as int - 48
    }
}

/// A digit string denotes a nonnegative number.
proof fn lemma_dec_value_nonneg(s: Seq<char>)
    requires
        all_dec_digits(s),
    ensures
        dec_value(s) >= 0,
    decreases s.len(),
{
    if s.len() > 0 {
        assert(all_dec_digits(s.drop_last()));
        lemma_dec_value_nonneg(s.drop_last());
    }
}

/// Extending a digit string on the right never lowers its value.
proof fn lemma_dec_value_prefix_le(s: Seq<char>, i: int)
    requires
        all_dec_digits(s),
        0 <= i <= s.len(),
    ensures
        dec_value(s.take(i)) <= dec_value(s),
    decreases s.len() - i,
{
    if i < s.len() {
        lemma_dec_value_prefix_le(s, i + 1);
        assert(s.take(i + 1).drop_last() =~= s.take(i));
        assert(all_dec_digits(s.take(i)));
        lemma_dec_value_nonneg(s.take(i));
    } else {
        assert(s.take(i) =~= s);
    }
}

/// The number a string denotes, or zero where it is empty, holds anything
/// but decimal digits, or denotes a value too large for sixty-four bits.
pub open spec fn parsed_or_zero(s: Seq<char>) -> int {
    if s.len() > 0 && all_dec_digits(s) && dec_value(s) <= u64::MAX {
        dec_value(s)
    } else {
        0
    }
}

/// Reads a number from a string of decimal digits; a string that is empty,
/// holds any other character, or denotes a value too large for sixty-four
/// bits reads as zero.
pub fn parse_u64_or_zero(s: &str) -> (r: u64)
    ensures
        r == parsed_or_zero(s@),
{
    let ghost bs = s@;
    let n: usize = s.unicode_len();
    if n == 0 {
        return 0;
    }
    let mut acc: u64 = 0;
    let mut i: usize = 0;
    while i < n
        invariant
            0 <= i <= n,
            n == bs.len(),
            bs == s@,
            forall|j: int| 0 <= j < i ==> is_dec_digit(#[trigger] bs[j]),
            acc == dec_value(bs.take(i as int)),
        decreases n - i,
    {
        let c: char = s.get_char(i);
        let code: u32 = c as u32;
        if code < 48 || code > 57 {
            assert(!is_dec_digit(bs[i as int]));
            assert(!all_dec_digits(bs));
            return 0;
        }
        let d: u64 = (code - 48) as u64;
        assert(bs.take(i + 1).drop_last() =~= bs.take(i as int));
        assert(bs.take(i + 1).last() == bs[i as int]);
        assert(dec_value(bs.take(i + 1)) == acc * 10 + d);
        if acc > (u64::MAX - d) / 10 {
            // The digits read so far already overflow, and further digits
            // only raise the value.
            proof {
                let m = (u64::MAX - d) / 10;
                assert(m * 10 + 9 >= u64::MAX - d);
                assert(acc >= m + 1);
                assert(acc * 10 >= (m + 1) * 10);
                assert(acc * 10 + d > u64::MAX);
                if all_dec_digits(bs) {
                    lemma_dec_value_prefix_le(bs, i + 1);
                    assert(dec_value(bs) > u64::MAX);
                }
            }
            return 0;
        }
        assert(acc * 10 <= ((u64::MAX - d) / 10) * 10);
        assert(((u64::MAX - d) / 10) * 10 <= u64::MAX - d);
        acc = acc * 10 + d;
        i = i + 1;
    }
    assert(bs.take(n as int) =~= bs);
    acc
}

} // verus!
