//! The grammar of spelled-out numbers, as spec functions on decimal digits.
//!
//! A number is read in groups of three digits. The leftmost group may be
//! shorter; each group is followed by the scale word of its position.

use vstd::prelude::*;
use crate::words::{scale_word, teen_word, tens_word, unit_word};

verus! {

/// The words for a group of two digits: a teen word where the first digit is
/// one, else the tens word, joined by a hyphen to the unit word if there is one.
pub open spec fn pair_text(tens: int, units: int) -> Seq<char> {
    if tens == 1 {
        teen_word(units)
    } else if units != 0 {
        tens_word(tens) + "-"@ + unit_word(units)
    } else {
        tens_word(tens)
    }
}

/// The words for a group of three digits.
///
/// With tens digit one or zero the word "hundred" is always written, also
/// after a hundreds digit of zero, which has no word of its own. With any
/// other tens digit a hundreds digit of zero is passed over.
pub open spec fn triple_text(hundreds: int, tens: int, units: int) -> Seq<char> {
    if tens == 1 {
        unit_word(hundreds) + " hundred and "@ + teen_word(units)
    } else if tens == 0 {
        if units != 0 {
            unit_word(hundreds) + " hundred and "@ + unit_word(units)
        } else {
            unit_word(hundreds) + " hundred"@
        }
    } else if hundreds != 0 {
        unit_word(hundreds) + " hundred and "@ + pair_text(tens, units)
    } else {
        pair_text(tens, units)
    }
}

/// The words for one group of one, two or three digits, most significant
/// digit first. A group of any other length has no text.
pub open spec fn chunk_text(chunk: Seq<usize>) -> Seq<char> {
    if chunk.len() == 1 {
        unit_word(chunk[0] as int)
    } else if chunk.len() == 2 {
        pair_text(chunk[0] as int, chunk[1] as int)
    } else if chunk.len() == 3 {
        triple_text(chunk[0] as int, chunk[1] as int, chunk[2] as int)
    } else {
        Seq::empty()
    }
}

/// Whether every element is a decimal digit.
pub open spec fn all_digits(digits: Seq<usize>) -> bool {
    forall|i: int| 0 <= i < digits.len() ==> digits[i] < 10
}

/// The length of the leftmost group of a number of `len` digits: what is left
/// over when the digits are counted off in threes from the right, or three.
pub open spec fn lead_len(len: nat) -> nat {
    if len % 3 == 0 {
        3
    } else {
        len % 3
    }
}

/// The number of groups that `len` digits fall into.
pub open spec fn group_count(len: nat) -> nat {
    (len + 2) / 3
}

/// The words for a sequence of digits: the leftmost group, its scale word,
/// and then the words for the digits that remain.
pub open spec fn spell_groups(digits: Seq<usize>) -> Seq<char>
    decreases digits.len(),
{
    if digits.len() == 0 {
        Seq::empty()
    } else {
        let lead = lead_len(digits.len()) as int;
        chunk_text(digits.take(lead)) + scale_word((digits.len() - lead) / 3) + spell_groups(
            digits.skip(lead),
        )
    }
}

} // verus!
