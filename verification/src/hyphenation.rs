//! Where the hyphens of a spelled number stand: only between a tens word and
//! a unit word.

use vstd::prelude::*;
use crate::decimal::{decimal_digits, lemma_decimal_digits_are_digits};
use crate::numbers::{magnitude, spelled};
use crate::spelling::{all_digits, chunk_text, lead_len, pair_text, spell_groups, triple_text};
use crate::words::{scale_word, teen_word, tens_word, unit_word};

verus! {

/// Whether `c` is a lower-case letter.
pub open spec fn is_letter(c: char) -> bool {
    'a' <= c && c <= 'z'
}

/// Whether `text` is made of lower-case letters alone.
pub open spec fn all_letters(text: Seq<char>) -> bool {
    forall|i: int| 0 <= i < text.len() ==> is_letter(#[trigger] text[i])
}

/// Whether `text` holds no hyphen.
pub open spec fn hyphen_free(text: Seq<char>) -> bool {
    forall|i: int| 0 <= i < text.len() ==> #[trigger] text[i] != '-'
}

/// Whether every hyphen of `text` has a letter on either side.
pub open spec fn hyphens_join_letters(text: Seq<char>) -> bool {
    forall|i: int|
        0 <= i < text.len() && #[trigger] text[i] == '-' ==> 0 < i < text.len() - 1 && is_letter(
            text[i - 1],
        ) && is_letter(text[i + 1])
}

/// The digit words are made of letters, and only zero has none.
proof fn lemma_unit_word_letters(digit: int)
    ensures
        all_letters(unit_word(digit)),
        1 <= digit <= 9 ==> unit_word(digit).len() > 0,
{
    reveal_strlit("one");
    reveal_strlit("two");
    reveal_strlit("three");
    reveal_strlit("four");
    reveal_strlit("five");
    reveal_strlit("six");
    reveal_strlit("seven");
    reveal_strlit("eight");
    reveal_strlit("nine");
    reveal_strlit("");
}

/// The words for 10 to 19 are made of letters.
proof fn lemma_teen_word_letters(digit: int)
    ensures
        all_letters(teen_word(digit)),
{
    reveal_strlit("ten");
    reveal_strlit("eleven");
    reveal_strlit("twelve");
    reveal_strlit("thirteen");
    reveal_strlit("fourteen");
    reveal_strlit("fifteen");
    reveal_strlit("sixteen");
    reveal_strlit("seventeen");
    reveal_strlit("eighteen");
    reveal_strlit("nineteen");
    reveal_strlit("");
}

/// The tens words are made of letters, and only zero has none.
proof fn lemma_tens_word_letters(digit: int)
    ensures
        all_letters(tens_word(digit)),
        1 <= digit <= 9 ==> tens_word(digit).len() > 0,
{
    reveal_strlit("ten");
    reveal_strlit("twenty");
    reveal_strlit("thirty");
    reveal_strlit("forty");
    reveal_strlit("fifty");
    reveal_strlit("sixty");
    reveal_strlit("seventy");
    reveal_strlit("eighty");
    reveal_strlit("ninety");
    reveal_strlit("");
}

/// No scale word holds a hyphen.
proof fn lemma_scale_word_hyphen_free(index: int)
    ensures
        hyphen_free(scale_word(index)),
{
    reveal_strlit(" thousand ");
    reveal_strlit(" million ");
    reveal_strlit(" billion ");
    reveal_strlit(" trillion ");
    reveal_strlit(" quadrillion ");
    reveal_strlit(" quintillion ");
    reveal_strlit(" sextillion ");
    reveal_strlit(" septillion ");
    reveal_strlit("");
}

/// Joining two texts whose hyphens stand between letters makes no hyphen
/// stray: none of them stood at an end.
proof fn lemma_join(a: Seq<char>, b: Seq<char>)
    requires
        hyphens_join_letters(a),
        hyphens_join_letters(b),
    ensures
        hyphens_join_letters(a + b),
{
    let s = a + b;
    assert forall|i: int| 0 <= i < s.len() && #[trigger] s[i] == '-' implies 0 < i < s.len() - 1
        && is_letter(s[i - 1]) && is_letter(s[i + 1]) by {
        if i < a.len() {
            assert(a[i] == '-');
            assert(s[i - 1] == a[i - 1]);
            assert(s[i + 1] == a[i + 1]);
        } else {
            let j = i - a.len();
            assert(b[j] == '-');
            assert(s[i - 1] == b[j - 1]);
            assert(s[i + 1] == b[j + 1]);
        }
    }
}

/// In the words for two digits of which the first is not zero, the hyphen
/// stands between the tens word and the unit word.
proof fn lemma_pair_text_hyphens(tens: int, units: int)
    requires
        1 <= tens <= 9,
        0 <= units <= 9,
    ensures
        hyphens_join_letters(pair_text(tens, units)),
{
    lemma_teen_word_letters(units);
    lemma_tens_word_letters(tens);
    lemma_unit_word_letters(units);
    reveal_strlit("-");
    if tens != 1 && units != 0 {
        let front = tens_word(tens);
        let back = unit_word(units);
        let s = front + "-"@ + back;
        assert forall|i: int| 0 <= i < s.len() && #[trigger] s[i] == '-' implies 0 < i < s.len()
            - 1 && is_letter(s[i - 1]) && is_letter(s[i + 1]) by {
            if i < front.len() {
                assert(is_letter(front[i]));
            } else if i > front.len() {
                assert(is_letter(back[i - front.len() - 1]));
            } else {
                assert(s[i - 1] == front[i - 1]);
                assert(s[i + 1] == back[0]);
            }
        }
    }
}

/// In the words for three digits every hyphen stands between letters.
proof fn lemma_triple_text_hyphens(hundreds: int, tens: int, units: int)
    requires
        0 <= hundreds <= 9,
        0 <= tens <= 9,
        0 <= units <= 9,
    ensures
        hyphens_join_letters(triple_text(hundreds, tens, units)),
{
    lemma_unit_word_letters(hundreds);
    lemma_unit_word_letters(units);
    lemma_teen_word_letters(units);
    reveal_strlit(" hundred and ");
    reveal_strlit(" hundred");
    let lead = unit_word(hundreds);
    if tens == 1 {
        lemma_join(lead, " hundred and "@);
        lemma_join(lead + " hundred and "@, teen_word(units));
    } else if tens == 0 {
        if units != 0 {
            lemma_join(lead, " hundred and "@);
            lemma_join(lead + " hundred and "@, unit_word(units));
        } else {
            lemma_join(lead, " hundred"@);
        }
    } else {
        lemma_pair_text_hyphens(tens, units);
        if hundreds != 0 {
            lemma_join(lead, " hundred and "@);
            lemma_join(lead + " hundred and "@, pair_text(tens, units));
        }
    }
}

/// In the words for one group every hyphen stands between letters, as long as
/// a group of two digits does not begin with zero.
proof fn lemma_chunk_text_hyphens(chunk: Seq<usize>)
    requires
        all_digits(chunk),
        chunk.len() == 2 ==> chunk[0] != 0,
    ensures
        hyphens_join_letters(chunk_text(chunk)),
{
    if chunk.len() == 1 {
        lemma_unit_word_letters(chunk[0] as int);
    } else if chunk.len() == 2 {
        lemma_pair_text_hyphens(chunk[0] as int, chunk[1] as int);
    } else if chunk.len() == 3 {
        lemma_triple_text_hyphens(chunk[0] as int, chunk[1] as int, chunk[2] as int);
    }
}

/// In the words for a sequence of digits every hyphen stands between letters,
/// as long as a leftmost group of two digits does not begin with zero.
proof fn lemma_spell_groups_hyphens(digits: Seq<usize>)
    requires
        all_digits(digits),
        digits.len() % 3 == 2 ==> digits[0] != 0,
    ensures
        hyphens_join_letters(spell_groups(digits)),
    decreases digits.len(),
{
    if digits.len() > 0 {
        let lead = lead_len(digits.len()) as int;
        let head = chunk_text(digits.take(lead));
        let scale = scale_word((digits.len() - lead) / 3);
        lemma_chunk_text_hyphens(digits.take(lead));
        lemma_scale_word_hyphen_free((digits.len() - lead) / 3);
        lemma_spell_groups_hyphens(digits.skip(lead));
        lemma_join(head, scale);
        lemma_join(head + scale, spell_groups(digits.skip(lead)));
    }
}

/// The decimal digits of a number other than zero do not begin with zero.
pub proof fn lemma_no_leading_zero(n: nat)
    requires
        n > 0,
    ensures
        decimal_digits(n)[0] != 0,
    decreases n,
{
    if n >= 10 {
        lemma_no_leading_zero(n / 10);
        lemma_decimal_digits_are_digits(n / 10);
    }
}

/// Spelling leaves no stray hyphen: in the words for any integer a hyphen
/// stands only between two letters, so never first, last or beside a space.
pub proof fn lemma_spelled_hyphens(n: int)
    ensures
        hyphens_join_letters(spelled(n)),
{
    let m = magnitude(n);
    reveal_strlit("zero");
    reveal_strlit("minus ");
    if m > 0 {
        lemma_no_leading_zero(m);
        lemma_decimal_digits_are_digits(m);
        lemma_spell_groups_hyphens(decimal_digits(m));
        if n < 0 {
            lemma_join("minus "@, spell_groups(decimal_digits(m)));
        }
    }
}

} // verus!
