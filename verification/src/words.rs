//! The fixed vocabulary: unit, teen, tens and scale words.
//!
//! Each table is given twice: as a spec function from an index to the text of
//! the word, and as an executable lookup proved to return that word.

use vstd::prelude::*;

verus! {

/// How many scale words there are; the first of them is the empty word of the
/// rightmost group.
pub const SCALE_WORDS: usize = 9;

/// The word for a single digit; zero has no word.
pub open spec fn unit_word(digit: int) -> Seq<char> {
    if digit == 1 {
        "one"@
    } else if digit == 2 {
        "two"@
    } else if digit == 3 {
        "three"@
    } else if digit == 4 {
        "four"@
    } else if digit == 5 {
        "five"@
    } else if digit == 6 {
        "six"@
    } else if digit == 7 {
        "seven"@
    } else if digit == 8 {
        "eight"@
    } else if digit == 9 {
        "nine"@
    } else {
        ""@
    }
}

/// The word for ten plus `digit`, that is for 10 to 19.
pub open spec fn teen_word(digit: int) -> Seq<char> {
    if digit == 0 {
        "ten"@
    } else if digit == 1 {
        "eleven"@
    } else if digit == 2 {
        "twelve"@
    } else if digit == 3 {
        "thirteen"@
    } else if digit == 4 {
        "fourteen"@
    } else if digit == 5 {
        "fifteen"@
    } else if digit == 6 {
        "sixteen"@
    } else if digit == 7 {
        "seventeen"@
    } else if digit == 8 {
        "eighteen"@
    } else if digit == 9 {
        "nineteen"@
    } else {
        ""@
    }
}

/// The word for `digit` tens; zero tens have no word.
pub open spec fn tens_word(digit: int) -> Seq<char> {
    if digit == 1 {
        "ten"@
    } else if digit == 2 {
        "twenty"@
    } else if digit == 3 {
        "thirty"@
    } else if digit == 4 {
        "forty"@
    } else if digit == 5 {
        "fifty"@
    } else if digit == 6 {
        "sixty"@
    } else if digit == 7 {
        "seventy"@
    } else if digit == 8 {
        "eighty"@
    } else if digit == 9 {
        "ninety"@
    } else {
        ""@
    }
}

/// The scale word that follows the group with `index` groups to its right,
/// with the spaces that part it from its neighbours. The rightmost group
/// (`index == 0`) has none. The words are those of the short scale, from
/// "thousand" up to "septillion"; there is no word from `SCALE_WORDS` on.
pub open spec fn scale_word(index: int) -> Seq<char> {
    if index == 1 {
        " thousand "@
    } else if index == 2 {
        " million "@
    } else if index == 3 {
        " billion "@
    } else if index == 4 {
        " trillion "@
    } else if index == 5 {
        " quadrillion "@
    } else if index == 6 {
        " quintillion "@
    } else if index == 7 {
        " sextillion "@
    } else if index == 8 {
        " septillion "@
    } else {
        ""@
    }
}

/// Looks up the word for a single digit.
pub fn unit_str(digit: usize) -> (word: &'static str)
    requires
        digit < 10,
    ensures
        word@ == unit_word(digit as int),
{
    match digit {
        1 => "one",
        2 => "two",
        3 => "three",
        4 => "four",
        5 => "five",
        6 => "six",
        7 => "seven",
        8 => "eight",
        9 => "nine",
        _ => "",
    }
}

/// Looks up the word for ten plus `digit`.
pub fn teen_str(digit: usize) -> (word: &'static str)
    requires
        digit < 10,
    ensures
        word@ == teen_word(digit as int),
{
    match digit {
        0 => "ten",
        1 => "eleven",
        2 => "twelve",
        3 => "thirteen",
        4 => "fourteen",
        5 => "fifteen",
        6 => "sixteen",
        7 => "seventeen",
        8 => "eighteen",
        _ => "nineteen",
    }
}

/// Looks up the word for `digit` tens.
pub fn tens_str(digit: usize) -> (word: &'static str)
    requires
        digit < 10,
    ensures
        word@ == tens_word(digit as int),
{
    match digit {
        1 => "ten",
        2 => "twenty",
        3 => "thirty",
        4 => "forty",
        5 => "fifty",
        6 => "sixty",
        7 => "seventy",
        8 => "eighty",
        9 => "ninety",
        _ => "",
    }
}

/// Looks up the scale word of the group with `index` groups to its right.
pub fn scale_str(index: usize) -> (word: &'static str)
    requires
        index < SCALE_WORDS,
    ensures
        word@ == scale_word(index as int),
{
    match index {
        1 => " thousand ",
        2 => " million ",
        3 => " billion ",
        4 => " trillion ",
        5 => " quadrillion ",
        6 => " quintillion ",
        7 => " sextillion ",
        8 => " septillion ",
        _ => "",
    }
}

} // verus!
