use vstd::prelude::*;

verus! {

/// Which of the four low bits is set in 0 and in each of 1, 2, 4 and 8.
pub(crate) proof fn lemma_single_bits()
    by (bit_vector)
    ensures
        0usize & 1 == 0,
        0usize & 2 == 0,
        0usize & 4 == 0,
        0usize & 8 == 0,
        1usize & 1 != 0,
        1usize & 2 == 0,
        1usize & 4 == 0,
        1usize & 8 == 0,
        2usize & 1 == 0,
        2usize & 2 != 0,
        2usize & 4 == 0,
        2usize & 8 == 0,
        4usize & 1 == 0,
        4usize & 2 == 0,
        4usize & 4 != 0,
        4usize & 8 == 0,
        8usize & 1 == 0,
        8usize & 2 == 0,
        8usize & 4 == 0,
        8usize & 8 != 0,
{
}

/// A bit is set in `a | b` exactly when it is set in `a` or in `b`.
pub(crate) proof fn lemma_or_bit(a: usize, b: usize, mask: usize)
    by (bit_vector)
    ensures
        ((a | b) & mask != 0) == ((a & mask != 0) || (b & mask != 0)),
{
}

} // verus!
