use vstd::arithmetic::power2::{lemma2_to64, lemma_pow2_strictly_increases, pow2};
use vstd::prelude::*;

pub mod directive;
pub mod instruction;
pub mod numeral;
pub mod program;
pub mod register;
pub mod token;
pub mod text;

verus! {

/// Returned by the keyword lookups (`FromStr`) when the text names no keyword.
#[derive(Debug, Clone, Copy, PartialEq, Eq)]
pub struct UnknownKeyword;

/// Where a [`Bits`] keeps its value: a byte when it has at most 8 bits.
#[derive(Debug, Clone, Copy, PartialEq, Eq, Structural)]
pub enum BitStorage {
    U8(u8),
    U32(u32),
}

/// Represents up to 32 bits of information.
#[derive(Debug, Clone, Copy, PartialEq, Eq)]
pub struct Bits<const N: usize> {
    data: BitStorage,
}

impl<const N: usize> Bits<N> {
    /// The number that the bits hold.
    pub closed spec fn value(&self) -> u32 {
        match self.data {
            BitStorage::U8(d) => d as u32,
            BitStorage::U32(d) => d,
        }
    }

    #[verifier::type_invariant]
    closed spec fn fits(&self) -> bool {
        &&& N <= 32
        &&& (self.value() as int) < pow2(N as nat)
        &&& (N <= 8 <==> self.data is U8)
    }

    /// Holds `data`, which must fit in `N` bits.
    pub fn new(data: u32) -> (r: Self)
        requires
            N <= 32,
            (data as int) < pow2(N as nat),
        ensures
            r.value() == data,
    {
        let data = if N <= 8 {
            proof {
                lemma2_to64();
                if N < 8 {
                    lemma_pow2_strictly_increases(N as nat, 8);
                }
            }
            BitStorage::U8(data as u8)
        } else {
            BitStorage::U32(data)
        };
        Self { data }
    }

    /// The number that the bits hold.
    pub fn get(&self) -> (r: u32)
        ensures
            r == self.value(),
            (r as int) < pow2(N as nat),
    {
        proof {
            use_type_invariant(self);
        }
        match self.data {
            BitStorage::U8(data) => data as u32,
            BitStorage::U32(data) => data,
        }
    }
}

} // verus!
