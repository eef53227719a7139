//! Facts about register words that every register type here rests on.

use vstd::prelude::*;

verus! {

/// Setting the bits of `flag` sets them and changes no other bit.
pub proof fn lemma_set(word: u32, flag: u32)
    by (bit_vector)
    ensures
        (word | flag) & !flag == word & !flag,
        (word | flag) & flag == flag,
{
}

/// Clearing the bits of `flag` clears them and changes no other bit.
pub proof fn lemma_clear(word: u32, flag: u32)
    by (bit_vector)
    ensures
        (word & !flag) & !flag == word & !flag,
        (word & !flag) & flag == 0,
{
}

} // verus!
