//! The renderings of the unsigned integer types.

use vstd::prelude::*;
use crate::laws::lemma_sixty_four_bits_within_scale;
use crate::magnitude::SignedMagnitude;
use crate::numbers::HumanizeNumbers;

verus! {

impl HumanizeNumbers for usize {
    open spec fn value(&self) -> int {
        *self as int
    }

    fn ord(&self) -> (text: String) {
        SignedMagnitude::from_unsigned(*self as u128).ord()
    }

    fn to_text(&self) -> (text: String) {
        proof {
            lemma_sixty_four_bits_within_scale(*self as int);
        }
        SignedMagnitude::from_unsigned(*self as u128).to_text_within_scale()
    }

    fn intcomma(&self) -> (text: String) {
        SignedMagnitude::from_unsigned(*self as u128).intcomma()
    }

    fn times(&self) -> (text: String) {
        proof {
            lemma_sixty_four_bits_within_scale(*self as int);
        }
        SignedMagnitude::from_unsigned(*self as u128).times_within_scale()
    }
}

impl HumanizeNumbers for u8 {
    open spec fn value(&self) -> int {
        *self as int
    }

    fn ord(&self) -> (text: String) {
        SignedMagnitude::from_unsigned(*self as u128).ord()
    }

    fn to_text(&self) -> (text: String) {
        proof {
            lemma_sixty_four_bits_within_scale(*self as int);
        }
        SignedMagnitude::from_unsigned(*self as u128).to_text_within_scale()
    }

    fn intcomma(&self) -> (text: String) {
        SignedMagnitude::from_unsigned(*self as u128).intcomma()
    }

    fn times(&self) -> (text: String) {
        proof {
            lemma_sixty_four_bits_within_scale(*self as int);
        }
        SignedMagnitude::from_unsigned(*self as u128).times_within_scale()
    }
}

impl HumanizeNumbers for u16 {
    open spec fn value(&self) -> int {
        *self as int
    }

    fn ord(&self) -> (text: String) {
        SignedMagnitude::from_unsigned(*self as u128).ord()
    }

    fn to_text(&self) -> (text: String) {
        proof {
            lemma_sixty_four_bits_within_scale(*self as int);
        }
        SignedMagnitude::from_unsigned(*self as u128).to_text_within_scale()
    }

    fn intcomma(&self) -> (text: String) {
        SignedMagnitude::from_unsigned(*self as u128).intcomma()
    }

    fn times(&self) -> (text: String) {
        proof {
            lemma_sixty_four_bits_within_scale(*self as int);
        }
        SignedMagnitude::from_unsigned(*self as u128).times_within_scale()
    }
}

impl HumanizeNumbers for u32 {
    open spec fn value(&self) -> int {
        *self as int
    }

    fn ord(&self) -> (text: String) {
        SignedMagnitude::from_unsigned(*self as u128).ord()
    }

    fn to_text(&self) -> (text: String) {
        proof {
            lemma_sixty_four_bits_within_scale(*self as int);
        }
        SignedMagnitude::from_unsigned(*self as u128).to_text_within_scale()
    }

    fn intcomma(&self) -> (text: String) {
        SignedMagnitude::from_unsigned(*self as u128).intcomma()
    }

    fn times(&self) -> (text: String) {
        proof {
            lemma_sixty_four_bits_within_scale(*self as int);
        }
        SignedMagnitude::from_unsigned(*self as u128).times_within_scale()
    }
}

impl HumanizeNumbers for u64 {
    open spec fn value(&self) -> int {
        *self as int
    }

    fn ord(&self) -> (text: String) {
        SignedMagnitude::from_unsigned(*self as u128).ord()
    }

    fn to_text(&self) -> (text: String) {
        proof {
            lemma_sixty_four_bits_within_scale(*self as int);
        }
        SignedMagnitude::from_unsigned(*self as u128).to_text_within_scale()
    }

    fn intcomma(&self) -> (text: String) {
        SignedMagnitude::from_unsigned(*self as u128).intcomma()
    }

    fn times(&self) -> (text: String) {
        proof {
            lemma_sixty_four_bits_within_scale(*self as int);
        }
        SignedMagnitude::from_unsigned(*self as u128).times_within_scale()
    }
}

} // verus!
