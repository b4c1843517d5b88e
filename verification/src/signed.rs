//! The renderings of the signed integer types: the sign is set apart and the
//! magnitude rendered as that of an unsigned integer.

use vstd::prelude::*;
use crate::laws::lemma_sixty_four_bits_within_scale;
use crate::magnitude::SignedMagnitude;
use crate::numbers::HumanizeNumbers;

verus! {

impl HumanizeNumbers for isize {
    open spec fn value(&self) -> int {
        *self as int
    }

    fn ord(&self) -> (text: String) {
        SignedMagnitude::from_signed(*self as i128).ord()
    }

    fn to_text(&self) -> (text: String) {
        proof {
            lemma_sixty_four_bits_within_scale(*self as int);
        }
        SignedMagnitude::from_signed(*self as i128).to_text_within_scale()
    }

    fn intcomma(&self) -> (text: String) {
        SignedMagnitude::from_signed(*self as i128).intcomma()
    }

    fn times(&self) -> (text: String) {
        proof {
            lemma_sixty_four_bits_within_scale(*self as int);
        }
        SignedMagnitude::from_signed(*self as i128).times_within_scale()
    }
}

impl HumanizeNumbers for i8 {
    open spec fn value(&self) -> int {
        *self as int
    }

    fn ord(&self) -> (text: String) {
        SignedMagnitude::from_signed(*self as i128).ord()
    }

    fn to_text(&self) -> (text: String) {
        proof {
            lemma_sixty_four_bits_within_scale(*self as int);
        }
        SignedMagnitude::from_signed(*self as i128).to_text_within_scale()
    }

    fn intcomma(&self) -> (text: String) {
        SignedMagnitude::from_signed(*self as i128).intcomma()
    }

    fn times(&self) -> (text: String) {
        proof {
            lemma_sixty_four_bits_within_scale(*self as int);
        }
        SignedMagnitude::from_signed(*self as i128).times_within_scale()
    }
}

impl HumanizeNumbers for i16 {
    open spec fn value(&self) -> int {
        *self as int
    }

    fn ord(&self) -> (text: String) {
        SignedMagnitude::from_signed(*self as i128).ord()
    }

    fn to_text(&self) -> (text: String) {
        proof {
            lemma_sixty_four_bits_within_scale(*self as int);
        }
        SignedMagnitude::from_signed(*self as i128).to_text_within_scale()
    }

    fn intcomma(&self) -> (text: String) {
        SignedMagnitude::from_signed(*self as i128).intcomma()
    }

    fn times(&self) -> (text: String) {
        proof {
            lemma_sixty_four_bits_within_scale(*self as int);
        }
        SignedMagnitude::from_signed(*self as i128).times_within_scale()
    }
}

impl HumanizeNumbers for i32 {
    open spec fn value(&self) -> int {
        *self as int
    }

    fn ord(&self) -> (text: String) {
        SignedMagnitude::from_signed(*self as i128).ord()
    }

    fn to_text(&self) -> (text: String) {
        proof {
            lemma_sixty_four_bits_within_scale(*self as int);
        }
        SignedMagnitude::from_signed(*self as i128).to_text_within_scale()
    }

    fn intcomma(&self) -> (text: String) {
        SignedMagnitude::from_signed(*self as i128).intcomma()
    }

    fn times(&self) -> (text: String) {
        proof {
            lemma_sixty_four_bits_within_scale(*self as int);
        }
        SignedMagnitude::from_signed(*self as i128).times_within_scale()
    }
}

impl HumanizeNumbers for i64 {
    open spec fn value(&self) -> int {
        *self as int
    }

    fn ord(&self) -> (text: String) {
        SignedMagnitude::from_signed(*self as i128).ord()
    }

    fn to_text(&self) -> (text: String) {
        proof {
            lemma_sixty_four_bits_within_scale(*self as int);
        }
        SignedMagnitude::from_signed(*self as i128).to_text_within_scale()
    }

    fn intcomma(&self) -> (text: String) {
        SignedMagnitude::from_signed(*self as i128).intcomma()
    }

    fn times(&self) -> (text: String) {
        proof {
            lemma_sixty_four_bits_within_scale(*self as int);
        }
        SignedMagnitude::from_signed(*self as i128).times_within_scale()
    }
}

} // verus!
