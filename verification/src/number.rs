//! Numbers in decimal.

use vstd::prelude::*;

use crate::text::characters;

verus! {

/// The decimal digit for a value below ten.
pub open spec fn digit(value: nat) -> char {
    (('0' as u32) + value) as char
}

/// A number written in decimal, without leading zeros.
pub open spec fn decimal(n: nat) -> Seq<char>
    decreases n,
{
    if n < 10 {
        seq![digit(n)]
    } else {
        decimal(n / 10).push(digit(n % 10))
    }
}

fn digit_char(value: usize) -> (r: char)
    requires
        value < 10,
    ensures
        r == digit(value as nat),
{
    (48u8 + value as u8) as char
}

/// Writes a number in decimal.
pub fn to_decimal(n: usize) -> (r: String)
    ensures
        r@ == decimal(n as nat),
    decreases n,
{
    if n < 10 {
        let mut out = String::new();
        out.push(digit_char(n));
        assert(out@ =~= seq![digit(n as nat)]);
        out
    } else {
        let mut out = to_decimal(n / 10);
        out.push(digit_char(n % 10));
        out
    }
}

/// Whether the character is one of the ten decimal digits.
pub open spec fn is_digit(c: char) -> bool {
    '0' <= c <= '9'
}

/// Whether `s` is one or more decimal digits and nothing else.
pub open spec fn is_numeral(s: Seq<char>) -> bool {
    s.len() > 0 && forall|i: int| 0 <= i < s.len() ==> is_digit(#[trigger] s[i])
}

/// The number that a run of decimal digits stands for.
pub open spec fn numeral_value(s: Seq<char>) -> nat
    decreases s.len(),
{
    if s.len() == 0 {
        0
    } else {
        (10 * numeral_value(s.drop_last()) + (s.last() as u32 - '0' as u32)) as nat
    }
}

/// `s` without one plus sign at its beginning.
pub open spec fn without_plus(s: Seq<char>) -> Seq<char> {
    if s.len() > 0 && s.first() == '+' {
        s.drop_first()
    } else {
        s
    }
}

/// The number that a string stands for: an optional plus sign, then decimal digits only, with a
/// value that the machine's word can hold.
pub open spec fn parsed_number(s: Seq<char>) -> Option<usize> {
    let digits = without_plus(s);
    if is_numeral(digits) && numeral_value(digits) <= usize::MAX {
        Some(numeral_value(digits) as usize)
    } else {
        None
    }
}

/// More digits never make a smaller number.
proof fn lemma_numeral_grows(s: Seq<char>, n: int)
    requires
        0 <= n <= s.len(),
        forall|i: int| 0 <= i < s.len() ==> is_digit(#[trigger] s[i]),
    ensures
        numeral_value(s.take(n)) <= numeral_value(s),
    decreases s.len() - n,
{
    if n < s.len() {
        lemma_numeral_grows(s, n + 1);
        let longer = s.take(n + 1);
        assert(longer.drop_last() =~= s.take(n));
        assert(is_digit(s[n]));
    } else {
        assert(s.take(n) =~= s);
    }
}

/// Reads an unsigned decimal number.
pub fn parse_number(s: &str) -> (r: Option<usize>)
    ensures
        r == parsed_number(s@),
{
    let chars = characters(s);
    let start: usize = if chars.len() > 0 && chars[0] == '+' {
        1
    } else {
        0
    };
    let ghost digits = without_plus(s@);
    assert(digits =~= chars@.skip(start as int));
    if start == chars.len() {
        return None;
    }
    let mut value: usize = 0;
    let mut i: usize = start;
    assert(digits.take(0) =~= Seq::<char>::empty());
    while i < chars.len()
        invariant
            start <= i <= chars@.len(),
            start < chars@.len(),
            digits == chars@.skip(start as int),
            digits == without_plus(s@),
            value == numeral_value(digits.take(i - start)),
            forall|j: int| 0 <= j < i - start ==> is_digit(#[trigger] digits[j]),
        decreases chars@.len() - i,
    {
        let c = chars[i];
        assert(digits[i - start] == c);
        if !('0' <= c && c <= '9') {
            return None;
        }
        let d: usize = (c as u32 - '0' as u32) as usize;
        assert(digits.take(i - start + 1).drop_last() =~= digits.take(i - start));
        let ghost next = numeral_value(digits.take(i - start + 1));
        assert(next == 10 * value + d);
        let shifted = value.checked_mul(10);
        let grown = match shifted {
            Some(v) => v.checked_add(d),
            None => None,
        };
        match grown {
            Some(v) => {
                value = v;
            },
            None => {
                proof {
                    if is_numeral(digits) {
                        lemma_numeral_grows(digits, i - start + 1);
                    }
                }
                return None;
            },
        }
        i += 1;
    }
    assert(digits.take(i - start) =~= digits);
    Some(value)
}

/// A number that is written and read again is the same number, with or without a plus sign before
/// it.
pub proof fn written_number_is_read_back(n: usize)
    ensures
        parsed_number(decimal(n as nat)) == Some(n),
        parsed_number(seq!['+'] + decimal(n as nat)) == Some(n),
{
    lemma_decimal(n as nat);
    let text = decimal(n as nat);
    assert(is_digit(text[0]));
    assert((seq!['+'] + text).drop_first() =~= text);
}

proof fn lemma_decimal(n: nat)
    ensures
        is_numeral(decimal(n)),
        numeral_value(decimal(n)) == n,
    decreases n,
{
    if n < 10 {
        assert(decimal(n).drop_last() =~= Seq::<char>::empty());
        assert(decimal(n).last() == digit(n));
        assert(numeral_value(decimal(n).drop_last()) == 0);
    } else {
        lemma_decimal(n / 10);
        assert(decimal(n).drop_last() =~= decimal(n / 10));
        assert(decimal(n).last() == digit(n % 10));
        assert forall|i: int| 0 <= i < decimal(n).len() implies is_digit(
            #[trigger] decimal(n)[i],
        ) by {
            if i < decimal(n / 10).len() {
                assert(is_digit(decimal(n / 10)[i]));
            }
        }
    }
}

/// A number is written with its last digit last, behind the digits of its tenth; a number below ten
/// is its digit.
pub proof fn number_is_written_digit_by_digit(tens: nat, ones: nat)
    requires
        ones < 10,
    ensures
        tens == 0 ==> decimal(10 * tens + ones) == seq!["0123456789"@[ones as int]],
        tens > 0 ==> decimal(10 * tens + ones) == decimal(tens).push("0123456789"@[ones as int]),
{
    reveal_strlit("0123456789");
    let n = 10 * tens + ones;
    assert(n / 10 == tens && n % 10 == ones);
}

/// A string of decimal digits is worth ten times what stands before its last digit, and that digit.
pub proof fn each_digit_counts_ten_times_the_next(s: Seq<char>, ones: nat)
    requires
        ones < 10,
    ensures
        numeral_value(s.push("0123456789"@[ones as int])) == 10 * numeral_value(s) + ones,
        numeral_value(Seq::empty()) == 0,
{
    reveal_strlit("0123456789");
    let last = "0123456789"@[ones as int];
    assert(s.push(last).drop_last() =~= s);
}

/// A string is read as a number exactly if it is made of one or more decimal digits, behind a plus
/// sign or not, and its value fits into a word; the value is what is read.
pub proof fn number_is_digits_and_nothing_else(digits: Seq<char>)
    requires
        digits.len() == 0 || digits[0] != '+',
    ensures
        ({
            let good = digits.len() > 0 && (forall|i: int|
                0 <= i < digits.len() ==> '0' <= #[trigger] digits[i] <= '9') && numeral_value(
                digits,
            ) <= usize::MAX;
            &&& parsed_number(digits) is Some <==> good
            &&& parsed_number(seq!['+'] + digits) is Some <==> good
            &&& parsed_number(digits) matches Some(n) ==> n == numeral_value(digits)
            &&& parsed_number(seq!['+'] + digits) == parsed_number(digits)
        }),
{
    assert((seq!['+'] + digits).drop_first() =~= digits);
    if is_numeral(digits) {
        assert forall|i: int| 0 <= i < digits.len() implies '0' <= #[trigger] digits[i] <= '9' by {
            assert(is_digit(digits[i]));
        }
    }
}

/// A second sign is no part of a number.
pub proof fn two_signs_are_no_number(rest: Seq<char>)
    ensures
        parsed_number(seq!['+', '+'] + rest) is None,
{
    let digits = without_plus(seq!['+', '+'] + rest);
    assert(digits[0] == '+');
    assert(!is_digit(digits[0]));
}

} // verus!
