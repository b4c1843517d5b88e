//! The four renderings of an integer, the trait that offers them on the
//! primitive integer types, and the group-by-group spelling they rest on.

use vstd::prelude::*;
use vstd::string::StringExecFns;
use crate::decimal::{decimal_digits, decimal_text};
use crate::grouping::group_thousands;
use crate::spelling::{all_digits, chunk_text, group_count, lead_len, spell_groups};
use crate::words::{scale_str, teen_str, tens_str, unit_str, SCALE_WORDS};

verus! {

/// The absolute value of `n`.
pub open spec fn magnitude(n: int) -> nat {
    if n < 0 {
        (-n) as nat
    } else {
        n as nat
    }
}

/// The sign that leads the digits of `n`: a minus for a negative number,
/// nothing else.
pub open spec fn sign_text(n: int) -> Seq<char> {
    if n < 0 {
        "-"@
    } else {
        Seq::empty()
    }
}

/// The ordinal suffix of a magnitude. Only the last digit decides, so the
/// teens follow their last digit too: 11 takes "st", 12 "nd" and 13 "rd".
pub open spec fn ordinal_suffix(m: nat) -> Seq<char> {
    if m % 10 == 1 {
        "st"@
    } else if m % 10 == 2 {
        "nd"@
    } else if m % 10 == 3 {
        "rd"@
    } else {
        "th"@
    }
}

/// The ordinal of `n`: its decimal text with the suffix of its magnitude.
pub open spec fn ordinal(n: int) -> Seq<char> {
    sign_text(n) + decimal_text(magnitude(n)) + ordinal_suffix(magnitude(n))
}

/// The decimal text of `n` with a comma every three digits from the right.
pub open spec fn comma_grouped(n: int) -> Seq<char> {
    sign_text(n) + group_thousands(decimal_text(magnitude(n)))
}

/// The English words for a magnitude.
pub open spec fn spelled_magnitude(m: nat) -> Seq<char> {
    if m == 0 {
        "zero"@
    } else {
        spell_groups(decimal_digits(m))
    }
}

/// The English words for `n`.
pub open spec fn spelled(n: int) -> Seq<char> {
    if n < 0 {
        "minus "@ + spelled_magnitude(magnitude(n))
    } else {
        spelled_magnitude(magnitude(n))
    }
}

/// Whether there is a scale word for every group of `n`. Beyond that
/// `spelled` has no meaning.
pub open spec fn within_scale(n: int) -> bool {
    group_count(decimal_digits(magnitude(n)).len()) <= SCALE_WORDS
}

/// How often: "never", "once", "twice", and from there on the spelled number
/// followed by "times". Minus one is the only other singular.
pub open spec fn repetition(n: int) -> Seq<char> {
    if n == 0 {
        "never"@
    } else if n == 1 {
        "once"@
    } else if n == 2 {
        "twice"@
    } else if n == -1 {
        "minus one time"@
    } else {
        spelled(n) + " times"@
    }
}

/// The four renderings, offered on every primitive integer type of up to 64
/// bits. Each of these lies within the scale, so none of the methods fails.
pub trait HumanizeNumbers {
    /// The integer that the value stands for.
    spec fn value(&self) -> int;

    /// The ordinal, such as "101st" or "-159652nd".
    fn ord(&self) -> (text: String)
        ensures
            text@ == ordinal(self.value()),
    ;

    /// The English words, such as "one hundred and one" or "minus two".
    fn to_text(&self) -> (text: String)
        ensures
            text@ == spelled(self.value()),
    ;

    /// The decimal digits with thousands separators, such as "1,234,567".
    fn intcomma(&self) -> (text: String)
        ensures
            text@ == comma_grouped(self.value()),
    ;

    /// How often, in words, such as "twice" or "ten times".
    fn times(&self) -> (text: String)
        ensures
            text@ == repetition(self.value()),
    ;
}

/// Appends the words for one group of digits to `res`.
///
/// `chunk` holds one, two or three decimal digits, most significant first.
pub fn stringify(res: &mut String, chunk: Vec<usize>)
    requires
        1 <= chunk.len() <= 3,
        all_digits(chunk@),
    ensures
        final(res)@ == old(res)@ + chunk_text(chunk@),
{
    if chunk.len() == 3 {
        if chunk[1] == 1 {
            res.append(unit_str(chunk[0]));
            res.append(" hundred and ");
            res.append(teen_str(chunk[2]));
        } else if chunk[1] == 0 {
            res.append(unit_str(chunk[0]));
            res.append(" hundred");
            if chunk[2] != 0 {
                res.append(" and ");
                res.append(unit_str(chunk[2]));
                proof {
                    reveal_strlit(" hundred");
                    reveal_strlit(" and ");
                    reveal_strlit(" hundred and ");
                    assert(" hundred"@ + " and "@ =~= " hundred and "@);
                }
            }
        } else {
            if chunk[0] != 0 {
                res.append(unit_str(chunk[0]));
                res.append(" hundred and ");
            }
            res.append(tens_str(chunk[1]));
            if chunk[2] != 0 {
                res.append("-");
                res.append(unit_str(chunk[2]));
            }
        }
    } else if chunk.len() == 2 {
        if chunk[0] == 1 {
            res.append(teen_str(chunk[1]));
        } else {
            res.append(tens_str(chunk[0]));
            if chunk[1] != 0 {
                res.append("-");
                res.append(unit_str(chunk[1]));
            }
        }
    } else {
        res.append(unit_str(chunk[0]));
    }
}

/// Copies the digits from `start` up to `end` into a vector of their own.
fn copy_digits(digits: &Vec<usize>, start: usize, end: usize) -> (chunk: Vec<usize>)
    requires
        start <= end <= digits.len(),
    ensures
        chunk@ == digits@.subrange(start as int, end as int),
{
    let mut chunk: Vec<usize> = Vec::new();
    let mut i: usize = start;
    while i < end
        invariant
            start <= i <= end <= digits.len(),
            chunk@ == digits@.subrange(start as int, i as int),
        decreases end - i,
    {
        chunk.push(digits[i]);
        i += 1;
    }
    chunk
}

/// Appends the words for a whole sequence of digits to `res`: group by group
/// from the left, each group followed by its scale word.
///
/// There must be a scale word for every group.
pub fn spell_digits(res: &mut String, digits: &Vec<usize>)
    requires
        all_digits(digits@),
        group_count(digits@.len()) <= SCALE_WORDS,
    ensures
        final(res)@ == old(res)@ + spell_groups(digits@),
{
    let len = digits.len();
    let mut start: usize = 0;
    let mut end: usize = if len % 3 == 0 {
        3
    } else {
        len % 3
    };
    let mut scale_idx: usize = len / 3 + if len % 3 == 0 {
        0
    } else {
        1
    };
    assert(digits@.skip(0) == digits@);
    while start < len
        invariant
            len == digits.len(),
            all_digits(digits@),
            start <= len,
            start < len ==> end == start + lead_len((len - start) as nat),
            scale_idx == group_count((len - start) as nat),
            scale_idx <= SCALE_WORDS,
            res@ + spell_groups(digits@.skip(start as int)) == old(res)@ + spell_groups(digits@),
        decreases len - start,
    {
        let ghost rest = digits@.skip(start as int);
        let ghost lead = (end - start) as int;
        let chunk = copy_digits(digits, start, end);
        proof {
            assert(chunk@ == rest.take(lead));
            assert(rest.skip(lead) == digits@.skip(end as int));
        }
        stringify(res, chunk);
        scale_idx -= 1;
        res.append(scale_str(scale_idx));
        start = end;
        if start < len {
            end = start + 3;
        }
    }
}

} // verus!
