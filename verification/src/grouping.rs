//! Thousands separators: a comma before every third character counted from
//! the right.

use vstd::prelude::*;
use vstd::string::StringExecFns;
use crate::decimal::{digit_char, digit_str, digits_text};

verus! {

/// `text` with a comma inserted every three characters, counting from the
/// right. A text of up to three characters is left as it is.
pub open spec fn group_thousands(text: Seq<char>) -> Seq<char>
    decreases text.len(),
{
    if text.len() <= 3 {
        text
    } else {
        group_thousands(text.take(text.len() - 3)) + seq![','] + text.skip(text.len() - 3)
    }
}

/// `text` without its commas.
pub open spec fn strip_commas(text: Seq<char>) -> Seq<char> {
    text.filter(|c: char| c != ',')
}

/// Whether `text` holds no comma.
pub open spec fn comma_free(text: Seq<char>) -> bool {
    forall|i: int| 0 <= i < text.len() ==> text[i] != ','
}

/// The grouped text of the first `upto` characters of `text`, as a pass from
/// the left writes it: a comma goes before each character, but the first, that
/// has a multiple of three characters from itself to the end.
spec fn grouped_prefix(text: Seq<char>, upto: nat) -> Seq<char>
    decreases upto,
{
    if upto == 0 {
        Seq::empty()
    } else {
        let i = upto - 1;
        if i > 0 && (text.len() - i) % 3 == 0 {
            grouped_prefix(text, i as nat) + seq![','] + seq![text[i]]
        } else {
            grouped_prefix(text, i as nat) + seq![text[i]]
        }
    }
}

/// Where the rest of the text falls into whole groups, the pass from the left
/// has written the grouping of what it has read.
proof fn lemma_prefix_is_grouping(text: Seq<char>, upto: nat)
    requires
        0 < upto <= text.len(),
        (text.len() - upto) % 3 == 0,
    ensures
        grouped_prefix(text, upto) == group_thousands(text.take(upto as int)),
    decreases upto,
{
    reveal_with_fuel(grouped_prefix, 4);
    let head = text.take(upto as int);
    if upto <= 3 {
        assert(grouped_prefix(text, upto) =~= head);
    } else {
        lemma_prefix_is_grouping(text, (upto - 3) as nat);
        assert(head.take(upto - 3) =~= text.take(upto - 3));
        assert(grouped_prefix(text, upto) =~= grouped_prefix(text, (upto - 3) as nat) + seq![',']
            + head.skip(upto - 3));
    }
}

/// A text without commas is its own filtrate.
proof fn lemma_strip_comma_free(text: Seq<char>)
    requires
        comma_free(text),
    ensures
        strip_commas(text) == text,
    decreases text.len(),
{
    reveal(Seq::filter);
    if text.len() > 0 {
        lemma_strip_comma_free(text.drop_last());
        assert(text.drop_last().push(text.last()) =~= text);
    }
}

/// Grouping inserts commas and nothing else: taking the commas out of the
/// grouping of a comma-free text gives the text back.
pub proof fn lemma_strip_group(text: Seq<char>)
    requires
        comma_free(text),
    ensures
        strip_commas(group_thousands(text)) == text,
    decreases text.len(),
{
    let pred = |c: char| c != ',';
    if text.len() <= 3 {
        lemma_strip_comma_free(text);
    } else {
        let cut = text.len() - 3;
        let head = text.take(cut);
        let tail = text.skip(cut);
        lemma_strip_group(head);
        lemma_strip_comma_free(tail);
        let comma = seq![','];
        assert(comma.filter(pred) =~= Seq::<char>::empty()) by {
            reveal_with_fuel(Seq::filter, 2);
        }
        Seq::filter_distributes_over_add(group_thousands(head), comma, pred);
        Seq::filter_distributes_over_add(group_thousands(head) + comma, tail, pred);
        assert(head + tail =~= text);
    }
}

/// The commas of a grouped text stand at every fourth place counted from the
/// right, and nowhere else; so none stands first or last, and no two are
/// neighbours.
pub proof fn lemma_separator_places(text: Seq<char>, place: int)
    requires
        comma_free(text),
        0 <= place < group_thousands(text).len(),
    ensures
        text.len() > 0,
        group_thousands(text).len() == text.len() + (text.len() - 1) / 3,
        group_thousands(text)[place] == ',' <==> (group_thousands(text).len() - place) % 4 == 0,
    decreases text.len(),
{
    if text.len() > 3 {
        let cut = text.len() - 3;
        let head = group_thousands(text.take(cut));
        lemma_grouped_len(text.take(cut));
        if place < head.len() {
            lemma_separator_places(text.take(cut), place);
        }
    }
}

/// A grouped text is longer than the text by the number of its commas.
pub proof fn lemma_grouped_len(text: Seq<char>)
    ensures
        group_thousands(text).len() == if text.len() == 0 {
            0
        } else {
            text.len() + (text.len() - 1) / 3
        },
    decreases text.len(),
{
    if text.len() > 3 {
        lemma_grouped_len(text.take(text.len() - 3));
    }
}

/// The text of decimal digits holds no comma.
pub proof fn lemma_digits_text_comma_free(digits: Seq<usize>)
    ensures
        comma_free(digits_text(digits)),
{
}

/// Appends the digits to `out`, with a comma between the groups of three
/// counted from the right.
pub fn push_grouped(out: &mut String, digits: &Vec<usize>)
    requires
        forall|i: int| 0 <= i < digits.len() ==> digits[i] < 10,
    ensures
        final(out)@ == old(out)@ + group_thousands(digits_text(digits@)),
{
    let len = digits.len();
    let ghost text = digits_text(digits@);
    // The place of the first separator; the others follow three digits apart.
    let mut separator: usize = if len % 3 == 0 {
        3
    } else {
        len % 3
    };
    let mut i: usize = 0;
    while i < len
        invariant
            len == digits.len(),
            text == digits_text(digits@),
            forall|k: int| 0 <= k < digits.len() ==> digits[k] < 10,
            i <= len,
            0 < separator,
            i <= separator <= i + 3,
            separator == i + 3 ==> i == 0,
            (separator - len) % 3 == 0,
            out@ == old(out)@ + grouped_prefix(text, i as nat),
        decreases len - i,
    {
        let ghost written = out@;
        let ghost due = i > 0 && (text.len() - i) % 3 == 0;
        assert(due <==> i == separator) by {
            assert(text.len() == len);
        }
        if i == separator {
            out.append(",");
            separator += 3;
            proof {
                reveal_strlit(",");
                assert(","@ =~= seq![',']);
            }
        }
        out.append(digit_str(digits[i]));
        proof {
            assert(text[i as int] == digit_char(digits[i as int] as int));
            assert(out@ =~= if due {
                written + seq![','] + seq![text[i as int]]
            } else {
                written + seq![text[i as int]]
            });
        }
        i += 1;
    }
    proof {
        if len > 0 {
            lemma_prefix_is_grouping(text, len as nat);
            assert(text.take(len as int) =~= text);
        }
    }
}

} // verus!
