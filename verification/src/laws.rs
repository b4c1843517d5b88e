//! What holds of the renderings for every integer.

use vstd::prelude::*;
use crate::decimal::{decimal_digits, decimal_text, lemma_digit_count, pow10};
use crate::grouping::{
    group_thousands, lemma_digits_text_comma_free, lemma_separator_places,
    lemma_strip_group, strip_commas,
};
use crate::numbers::{
    comma_grouped, magnitude, sign_text, spelled, within_scale, HumanizeNumbers,
};

verus! {

/// The plain decimal text of `n`, with a minus before a negative number.
pub open spec fn signed_decimal(n: int) -> Seq<char> {
    sign_text(n) + decimal_text(magnitude(n))
}

/// The least magnitude that lies beyond the scale: ten to the power 27, one
/// more than the nine groups of three digits that have a scale word.
pub open spec fn scale_limit() -> nat {
    1_000_000_000_000_000_000_000_000_000
}

/// Taking the commas out of the comma-grouped text of any integer leaves its
/// plain decimal text, sign included.
pub proof fn lemma_intcomma_round_trip(n: int)
    ensures
        strip_commas(comma_grouped(n)) == signed_decimal(n),
{
    let digits = decimal_text(magnitude(n));
    let sign = sign_text(n);
    let pred = |c: char| c != ',';
    lemma_digits_text_comma_free(decimal_digits(magnitude(n)));
    lemma_strip_group(digits);
    Seq::filter_distributes_over_add(sign, group_thousands(digits), pred);
    assert(sign.filter(pred) == sign) by {
        reveal_strlit("-");
        reveal_with_fuel(Seq::filter, 2);
        if n < 0 {
            assert(sign.drop_last() =~= Seq::<char>::empty());
            assert(sign =~= Seq::<char>::empty().push('-'));
        }
    }
}

/// In the comma-grouped text of any integer, a comma stands at every fourth
/// place counted from the right and nowhere else, the place of the sign left
/// aside. So there is none at either end, and three digits follow each.
pub proof fn lemma_intcomma_separators(n: int, place: int)
    requires
        0 <= place < comma_grouped(n).len(),
        n < 0 ==> place >= 1,
    ensures
        comma_grouped(n)[place] == ',' <==> (comma_grouped(n).len() - place) % 4 == 0,
{
    let digits = decimal_text(magnitude(n));
    let grouped = group_thousands(digits);
    lemma_digits_text_comma_free(decimal_digits(magnitude(n)));
    if n < 0 {
        reveal_strlit("-");
        assert(comma_grouped(n).len() == grouped.len() + 1);
        assert(comma_grouped(n)[place] == grouped[place - 1]);
        lemma_separator_places(digits, place - 1);
    } else {
        assert(comma_grouped(n) =~= grouped);
        lemma_separator_places(digits, place);
    }
}

/// Zero is spelled "zero".
pub proof fn lemma_spelled_zero()
    ensures
        spelled(0) == "zero"@,
{
}

/// A negative number is spelled as "minus" and the spelling of its opposite.
pub proof fn lemma_spelled_negative(n: int)
    requires
        n < 0,
    ensures
        spelled(n) == "minus "@ + spelled(-n),
{
}

/// The numbers within the scale are those whose magnitude is below ten to the
/// power 27.
pub proof fn lemma_scale_limit(n: int)
    ensures
        within_scale(n) <==> magnitude(n) < scale_limit(),
{
    lemma_digit_count(magnitude(n), 27);
    assert(pow10(27) == scale_limit()) by {
        reveal_with_fuel(pow10, 28);
    }
}

/// Every integer of up to 64 bits, signed or not, lies within the scale.
pub proof fn lemma_sixty_four_bits_within_scale(n: int)
    requires
        -0x1_0000_0000_0000_0000 < n < 0x1_0000_0000_0000_0000,
    ensures
        within_scale(n),
{
    lemma_scale_limit(n);
}

/// The renderings are functions of the value alone: whatever two calls of one
/// method return for numbers of the same value, of one type or of two, holds
/// the same text.
pub proof fn lemma_renderings_are_functions<A: HumanizeNumbers, B: HumanizeNumbers>(
    a: &A,
    b: &B,
    first: String,
    second: String,
)
    requires
        a.value() == b.value(),
    ensures
        call_ensures(A::ord, (a,), first) && call_ensures(B::ord, (b,), second) ==> first@
            == second@,
        call_ensures(A::to_text, (a,), first) && call_ensures(B::to_text, (b,), second) ==> first@
            == second@,
        call_ensures(A::intcomma, (a,), first) && call_ensures(B::intcomma, (b,), second)
            ==> first@ == second@,
        call_ensures(A::times, (a,), first) && call_ensures(B::times, (b,), second) ==> first@
            == second@,
{
}

} // verus!
