use vstd::prelude::*;

verus! {

/// A four-bit value, `0..=15`.
#[derive(Debug, Copy, Clone, PartialEq, Eq, Structural)]
pub(crate) struct Nibble(pub(crate) u8);

impl Nibble {
    #[verifier::type_invariant]
    pub(crate) open spec fn in_range(self) -> bool {
        self.0 < 16
    }

    pub(crate) open spec fn view(self) -> u8 {
        self.0
    }

    /// The numeric value of the nibble.
    pub(crate) fn get(self) -> (r: u8)
        ensures
            r == self@,
            r < 16,
    {
        proof {
            use_type_invariant(self);
        }
        self.0
    }

    /// The nibble holding `x`, when `x` fits in four bits.
    pub(crate) fn new(x: u8) -> (r: Option<Self>)
        ensures
            x < 16 <==> r is Some,
            r matches Some(n) ==> n@ == x,
    {
        if (x & 0xF0) != 0 {
            proof {
                assert(x & 0xF0 != 0 ==> x >= 16) by (bit_vector);
            }
            return None;
        }
        proof {
            assert(x & 0xF0 == 0 ==> x < 16) by (bit_vector);
        }
        Some(Nibble(x))
    }

    /// Nibble number `N` of `word`, counted from the most significant one:
    /// in a word `ABCD`, `A` is nibble 0 and `D` is nibble 3.
    pub(crate) fn select_nibble<const N: u32>(word: u16) -> (r: Self)
        requires
            N < 4,
        ensures
            r@ == nibble_of(word, N),
    {
        let shift: u16 = (4 * (3 - N)) as u16;
        let raw: u8 = ((word >> shift) & 0xF) as u8;
        proof {
            assert(((word >> shift) & 0xF) < 16) by (bit_vector);
            if N == 0 {
                assert(((word >> 12u16) & 0xF) == word / 4096) by (bit_vector);
            } else if N == 1 {
                assert(((word >> 8u16) & 0xF) == (word / 256) % 16) by (bit_vector);
            } else if N == 2 {
                assert(((word >> 4u16) & 0xF) == (word / 16) % 16) by (bit_vector);
            } else {
                assert(((word >> 0u16) & 0xF) == word % 16) by (bit_vector);
            }
        }
        Nibble(raw)
    }
}

/// Nibble number `n` of `word`, counted from the most significant one.
pub open spec fn nibble_of(word: u16, n: u32) -> u8 {
    (if n == 0 {
        word / 4096
    } else if n == 1 {
        (word / 256) % 16
    } else if n == 2 {
        (word / 16) % 16
    } else {
        word % 16
    }) as u8
}

} // verus!
