//! An integer as a sign and a magnitude, and the four renderings on it.
//!
//! Every integer of up to 128 bits, signed or not, has this form. Spelling
//! fails on those too large for the table of scale words.

use vstd::prelude::*;
use vstd::string::StringExecFns;
use crate::decimal::{decimal_digits, lemma_decimal_digits_are_digits, push_digits, split_digits};
use crate::grouping::push_grouped;
use crate::numbers::{
    comma_grouped, magnitude, ordinal, ordinal_suffix, repetition, spell_digits, spelled,
    within_scale,
};
use crate::spelling::group_count;
use crate::words::SCALE_WORDS;

verus! {

/// An integer held as its absolute value and a flag for the sign.
///
/// A zero magnitude stands for zero whatever the flag says.
#[derive(Clone, Copy, Debug)]
pub struct SignedMagnitude {
    pub negative: bool,
    pub magnitude: u128,
}

/// The failure of spelling a number that has more groups of three digits than
/// there are scale words.
#[derive(Clone, Copy, Debug, PartialEq, Eq)]
pub struct ScaleExceeded {
    /// The number of groups that the number falls into.
    pub groups: usize,
}

impl View for SignedMagnitude {
    type V = int;

    /// The integer that the value stands for.
    open spec fn view(&self) -> int {
        if self.negative {
            -(self.magnitude as int)
        } else {
            self.magnitude as int
        }
    }
}

/// The failure that spelling `n` ends in, for an `n` beyond the scale.
pub open spec fn scale_failure(n: int) -> ScaleExceeded {
    ScaleExceeded { groups: group_count(decimal_digits(magnitude(n)).len()) as usize }
}

/// The two-letter ordinal suffix for a last digit.
fn suffix_str(last: u128) -> (suffix: &'static str)
    requires
        last < 10,
    ensures
        suffix@ == ordinal_suffix(last as nat),
{
    if last == 1 {
        "st"
    } else if last == 2 {
        "nd"
    } else if last == 3 {
        "rd"
    } else {
        "th"
    }
}

impl SignedMagnitude {
    /// The value with the given sign flag and magnitude.
    pub fn new(negative: bool, magnitude: u128) -> (number: Self)
        ensures
            number.negative == negative,
            number.magnitude == magnitude,
    {
        SignedMagnitude { negative, magnitude }
    }

    /// The form of an unsigned integer.
    pub fn from_unsigned(n: u128) -> (number: Self)
        ensures
            number@ == n,
            !number.negative,
            number.magnitude == n,
    {
        SignedMagnitude { negative: false, magnitude: n }
    }

    /// The form of a signed integer. The least one has a magnitude too, which
    /// no signed integer of its width can hold.
    pub fn from_signed(n: i128) -> (number: Self)
        ensures
            number@ == n,
            number.negative == (n < 0),
            number.magnitude == magnitude(n as int),
    {
        if n < 0 {
            let below: u128 = (-(n + 1)) as u128;
            SignedMagnitude { negative: true, magnitude: below + 1 }
        } else {
            SignedMagnitude { negative: false, magnitude: n as u128 }
        }
    }

    /// Whether the value is below zero.
    pub fn is_negative(&self) -> (negative: bool)
        ensures
            negative == (self@ < 0),
    {
        self.negative && self.magnitude != 0
    }

    /// The ordinal: the decimal digits, after a minus for a negative value,
    /// and the suffix that the last digit calls for.
    pub fn ord(&self) -> (text: String)
        ensures
            text@ == ordinal(self@),
    {
        let digits = split_digits(self.magnitude);
        proof {
            lemma_decimal_digits_are_digits(self.magnitude as nat);
        }
        let mut text = String::new();
        if self.is_negative() {
            text.append("-");
        }
        push_digits(&mut text, &digits);
        text.append(suffix_str(self.magnitude % 10));
        text
    }

    /// The decimal digits in groups of three from the right with commas
    /// between them, after a minus for a negative value.
    pub fn intcomma(&self) -> (text: String)
        ensures
            text@ == comma_grouped(self@),
    {
        let digits = split_digits(self.magnitude);
        proof {
            lemma_decimal_digits_are_digits(self.magnitude as nat);
        }
        let mut text = String::new();
        if self.is_negative() {
            text.append("-");
        }
        push_grouped(&mut text, &digits);
        text
    }

    /// The words for digits known to lie within the scale, after "minus" for a
    /// negative value.
    fn spell(&self, digits: &Vec<usize>) -> (text: String)
        requires
            self.magnitude != 0,
            digits@ == decimal_digits(self.magnitude as nat),
            within_scale(self@),
        ensures
            text@ == spelled(self@),
    {
        proof {
            lemma_decimal_digits_are_digits(self.magnitude as nat);
        }
        let mut text = String::new();
        if self.negative {
            text.append("minus ");
        }
        spell_digits(&mut text, digits);
        text
    }

    /// The English words for the value.
    ///
    /// Fails exactly on the values that have more groups of three digits than
    /// there are scale words, and says how many groups that is.
    pub fn to_text(&self) -> (result: Result<String, ScaleExceeded>)
        ensures
            within_scale(self@) ==> result is Ok && result->Ok_0@ == spelled(self@),
            !within_scale(self@) ==> result == Err::<String, ScaleExceeded>(scale_failure(self@)),
    {
        if self.magnitude == 0 {
            return Ok(String::from_str("zero"));
        }
        let digits = split_digits(self.magnitude);
        let len = digits.len();
        let groups: usize = len / 3 + if len % 3 == 0 {
            0
        } else {
            1
        };
        if groups > SCALE_WORDS {
            Err(ScaleExceeded { groups })
        } else {
            Ok(self.spell(&digits))
        }
    }

    /// The English words for a value that lies within the scale.
    pub(crate) fn to_text_within_scale(&self) -> (text: String)
        requires
            within_scale(self@),
        ensures
            text@ == spelled(self@),
    {
        if self.magnitude == 0 {
            String::from_str("zero")
        } else {
            let digits = split_digits(self.magnitude);
            self.spell(&digits)
        }
    }

    /// How often, in words: "never", "once", "twice", "minus one time", and
    /// elsewhere the spelled value followed by "times".
    ///
    /// Fails where the spelling does.
    pub fn times(&self) -> (result: Result<String, ScaleExceeded>)
        ensures
            within_scale(self@) ==> result is Ok && result->Ok_0@ == repetition(self@),
            !within_scale(self@) ==> result == Err::<String, ScaleExceeded>(scale_failure(self@)),
    {
        match self.to_text() {
            Ok(spelling) => Ok(self.phrase(spelling)),
            Err(failure) => Err(failure),
        }
    }

    /// How often, in words, for a value that lies within the scale.
    pub(crate) fn times_within_scale(&self) -> (text: String)
        requires
            within_scale(self@),
        ensures
            text@ == repetition(self@),
    {
        let spelling = self.to_text_within_scale();
        self.phrase(spelling)
    }

    /// The repetition phrase, given the spelling of the value.
    fn phrase(&self, spelling: String) -> (text: String)
        requires
            spelling@ == spelled(self@),
        ensures
            text@ == repetition(self@),
    {
        if self.magnitude == 0 {
            String::from_str("never")
        } else if self.magnitude == 1 {
            if self.negative {
                String::from_str("minus one time")
            } else {
                String::from_str("once")
            }
        } else if self.magnitude == 2 && !self.negative {
            String::from_str("twice")
        } else {
            let mut text = spelling;
            text.append(" times");
            text
        }
    }
}

} // verus!
