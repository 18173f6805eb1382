//! Identifiers of elements.

use crate::text::{hex_string, hex_text, is_digit, lemma_radix_text_digits};
use vstd::prelude::*;

verus! {

/// Makes the identifier of an element from 64 random bits: the bits as a
/// number in hexadecimal, lower case, without leading zeros.
pub fn new_id(random_bits: u64) -> (id: String)
    ensures
        id@ == hex_text(random_bits as nat),
{
    hex_string(random_bits)
}

/// An identifier is never empty and holds hexadecimal digits only.
pub proof fn lemma_id_is_hexadecimal(random_bits: u64)
    ensures
        hex_text(random_bits as nat).len() >= 1,
        forall|i: int|
            0 <= i < hex_text(random_bits as nat).len() ==> is_digit(
                #[trigger] hex_text(random_bits as nat)[i],
                16,
            ),
{
    lemma_radix_text_digits(random_bits as nat, 16);
}

} // verus!
