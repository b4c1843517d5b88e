//! Decimal digits of a natural number, and their text.

use vstd::prelude::*;
use vstd::string::StringExecFns;

verus! {

/// The decimal digits of `n`, most significant first, without leading zeros.
/// Zero has the single digit 0.
pub open spec fn decimal_digits(n: nat) -> Seq<usize>
    decreases n,
{
    if n < 10 {
        seq![n as usize]
    } else {
        decimal_digits(n / 10).push((n % 10) as usize)
    }
}

/// The character that stands for a decimal digit.
pub open spec fn digit_char(digit: int) -> char {
    if digit == 0 {
        '0'
    } else if digit == 1 {
        '1'
    } else if digit == 2 {
        '2'
    } else if digit == 3 {
        '3'
    } else if digit == 4 {
        '4'
    } else if digit == 5 {
        '5'
    } else if digit == 6 {
        '6'
    } else if digit == 7 {
        '7'
    } else if digit == 8 {
        '8'
    } else {
        '9'
    }
}

/// The text of a sequence of digits: one character for each.
pub open spec fn digits_text(digits: Seq<usize>) -> Seq<char> {
    Seq::new(digits.len(), |i: int| digit_char(digits[i] as int))
}

/// The plain decimal text of `n`.
pub open spec fn decimal_text(n: nat) -> Seq<char> {
    digits_text(decimal_digits(n))
}

/// Ten to the power `exp`.
pub open spec fn pow10(exp: nat) -> nat
    decreases exp,
{
    if exp == 0 {
        1
    } else {
        10 * pow10((exp - 1) as nat)
    }
}

/// Every decimal digit of a number is below ten, and there is at least one.
pub proof fn lemma_decimal_digits_are_digits(n: nat)
    ensures
        decimal_digits(n).len() >= 1,
        forall|i: int| 0 <= i < decimal_digits(n).len() ==> decimal_digits(n)[i] < 10,
    decreases n,
{
    if n >= 10 {
        lemma_decimal_digits_are_digits(n / 10);
    }
}

/// A number has at most `len` digits exactly when it is below ten to the
/// power `len`.
pub proof fn lemma_digit_count(n: nat, len: nat)
    requires
        len >= 1,
    ensures
        decimal_digits(n).len() <= len <==> n < pow10(len),
    decreases len,
{
    reveal_with_fuel(pow10, 2);
    if len == 1 {
        if n >= 10 {
            lemma_decimal_digits_are_digits(n / 10);
        }
    } else {
        if n < 10 {
            lemma_pow10_grows(len);
        } else {
            lemma_digit_count(n / 10, (len - 1) as nat);
        }
    }
}

/// Ten to any power from one on is at least ten.
proof fn lemma_pow10_grows(exp: nat)
    requires
        exp >= 1,
    ensures
        pow10(exp) >= 10,
    decreases exp,
{
    reveal_with_fuel(pow10, 2);
    if exp > 1 {
        lemma_pow10_grows((exp - 1) as nat);
    }
}

/// Splits `n` into its decimal digits, most significant first.
pub fn split_digits(n: u128) -> (digits: Vec<usize>)
    ensures
        digits@ == decimal_digits(n as nat),
{
    let mut digits: Vec<usize> = Vec::new();
    digits.push((n % 10) as usize);
    let mut rest: u128 = n / 10;
    while rest > 0
        invariant
            decimal_digits(n as nat) == if rest > 0 {
                decimal_digits(rest as nat) + digits@
            } else {
                digits@
            },
        decreases rest,
    {
        digits.insert(0, (rest % 10) as usize);
        rest = rest / 10;
    }
    digits
}

/// The one-character string of a decimal digit.
pub fn digit_str(digit: usize) -> (text: &'static str)
    requires
        digit < 10,
    ensures
        text@ == seq![digit_char(digit as int)],
{
    proof {
        reveal_strlit("0");
        reveal_strlit("1");
        reveal_strlit("2");
        reveal_strlit("3");
        reveal_strlit("4");
        reveal_strlit("5");
        reveal_strlit("6");
        reveal_strlit("7");
        reveal_strlit("8");
        reveal_strlit("9");
    }
    let text = match digit {
        0 => "0",
        1 => "1",
        2 => "2",
        3 => "3",
        4 => "4",
        5 => "5",
        6 => "6",
        7 => "7",
        8 => "8",
        _ => "9",
    };
    assert(text@ =~= seq![digit_char(digit as int)]);
    text
}

/// Appends the text of `digits` to `out`.
pub fn push_digits(out: &mut String, digits: &Vec<usize>)
    requires
        forall|i: int| 0 <= i < digits.len() ==> digits[i] < 10,
    ensures
        final(out)@ == old(out)@ + digits_text(digits@),
{
    let mut i: usize = 0;
    while i < digits.len()
        invariant
            i <= digits.len(),
            forall|k: int| 0 <= k < digits.len() ==> digits[k] < 10,
            out@ == old(out)@ + digits_text(digits@.take(i as int)),
        decreases digits.len() - i,
    {
        out.append(digit_str(digits[i]));
        i += 1;
    }
    assert(digits@.take(i as int) == digits@);
}

} // verus!
