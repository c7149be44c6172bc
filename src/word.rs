use vstd::prelude::*;

verus! {

/// 2 to the 64th power.
pub open spec fn two64() -> int {
    0x1_0000_0000_0000_0000
}

/// A value that a 128-bit atomic cell can hold: its bit pattern is the whole
/// 128-bit word, each value has one pattern and each pattern is one value.
/// So the cell never holds a word that is no value's pattern, and words
/// compare equal exactly when the values' patterns do.
pub trait DoubleWord: Sized {
    /// The bit pattern that represents `self`.
    spec fn bits_of(&self) -> u128;

    /// The value that the bit pattern `b` represents.
    spec fn value_of(b: u128) -> Self;

    /// Reading back the pattern of a value gives the value.
    proof fn lemma_value_of_bits(v: Self)
        ensures
            Self::value_of(v.bits_of()) == v,
    ;

    /// The pattern of the value that a word represents is that word.
    proof fn lemma_bits_of_value(w: u128)
        ensures
            Self::value_of(w).bits_of() == w,
    ;

    fn to_bits(&self) -> (r: u128)
        ensures
            r == self.bits_of(),
    ;

    fn from_bits(b: u128) -> (r: Self)
        ensures
            r == Self::value_of(b),
    ;
}

impl DoubleWord for u128 {
    open spec fn bits_of(&self) -> u128 {
        *self
    }

    open spec fn value_of(b: u128) -> u128 {
        b
    }

    proof fn lemma_value_of_bits(v: u128) {
    }

    proof fn lemma_bits_of_value(w: u128) {
    }

    fn to_bits(&self) -> (r: u128) {
        *self
    }

    fn from_bits(b: u128) -> (r: u128) {
        b
    }
}

/// Two 64-bit words: the first is the low half of the pattern, the second the
/// high half.
impl DoubleWord for (u64, u64) {
    open spec fn bits_of(&self) -> u128 {
        (self.0 as int + self.1 as int * two64()) as u128
    }

    open spec fn value_of(b: u128) -> (u64, u64) {
        ((b as int % two64()) as u64, (b as int / two64()) as u64)
    }

    proof fn lemma_value_of_bits(v: (u64, u64)) {
        let lo = v.0 as int;
        let hi = v.1 as int;
        assert(0 <= lo + hi * two64() <= u128::MAX as int)
            by (nonlinear_arith)
            requires
                0 <= lo < two64(),
                0 <= hi < two64(),
        ;
        assert((lo + hi * two64()) % two64() == lo) by (nonlinear_arith)
            requires
                0 <= lo < two64(),
                0 <= hi,
        ;
        assert((lo + hi * two64()) / two64() == hi) by (nonlinear_arith)
            requires
                0 <= lo < two64(),
                0 <= hi,
        ;
    }

    proof fn lemma_bits_of_value(w: u128) {
        let b = w as int;
        assert(b % two64() + (b / two64()) * two64() == b) by (nonlinear_arith)
            requires
                b >= 0,
        ;
        assert(0 <= b % two64() < two64()) by (nonlinear_arith);
        assert(0 <= b / two64() < two64()) by (nonlinear_arith)
            requires
                0 <= b <= u128::MAX as int,
        ;
    }

    fn to_bits(&self) -> (r: u128) {
        proof {
            let lo = self.0 as int;
            let hi = self.1 as int;
            assert(0 <= lo + hi * two64() <= u128::MAX as int)
                by (nonlinear_arith)
                requires
                    0 <= lo < two64(),
                    0 <= hi < two64(),
            ;
        }
        self.0 as u128 + (self.1 as u128) * 0x1_0000_0000_0000_0000
    }

    fn from_bits(b: u128) -> (r: (u64, u64)) {
        ((b % 0x1_0000_0000_0000_0000) as u64, (b / 0x1_0000_0000_0000_0000) as u64)
    }
}

} // verus!
