//! Reinterpreting the mapped byte range as 32-bit words.
//!
//! The staging buffer's bytes are read back as little-endian 32-bit
//! words, one per element; the caller gives each word its final
//! numeric meaning.

use vstd::prelude::*;

use crate::errors::GpuError;

verus! {

/// The little-endian 32-bit word starting at byte `4 * i`.
pub open spec fn le_word_at(bytes: Seq<u8>, i: int) -> u32
    recommends
        0 <= i,
        4 * i + 4 <= bytes.len(),
{
    (bytes[4 * i] + 0x100 * bytes[4 * i + 1] + 0x1_0000 * bytes[4 * i + 2] + 0x100_0000 * bytes[
        4 * i + 3
    ]) as u32
}

/// Decodes a mapped byte range into its little-endian 32-bit words.
///
/// The range must hold whole words; any other length is rejected
/// rather than truncated.
pub fn decode_words(bytes: &Vec<u8>) -> (r: Result<Vec<u32>, GpuError>)
    ensures
        r is Ok <==> bytes@.len() % 4 == 0,
        r matches Ok(words) ==> words@.len() == bytes@.len() / 4 && forall|i: int|
            0 <= i < words@.len() ==> words@[i] == le_word_at(bytes@, i),
        r is Err ==> r->Err_0 == GpuError::SizeConversion,
{
    if bytes.len() % 4 != 0 {
        return Err(GpuError::SizeConversion);
    }
    let count = bytes.len() / 4;
    assert(bytes@.len() == 4 * count);
    let mut words: Vec<u32> = Vec::new();
    let mut i: usize = 0;
    while i < count
        invariant
            bytes@.len() <= usize::MAX,
            bytes@.len() == 4 * count,
            count == bytes@.len() / 4,
            i <= count,
            words@.len() == i,
            forall|j: int| 0 <= j < i ==> words@[j] == le_word_at(bytes@, j),
        decreases count - i,
    {
        let b0 = bytes[4 * i] as u32;
        let b1 = bytes[4 * i + 1] as u32;
        let b2 = bytes[4 * i + 2] as u32;
        let b3 = bytes[4 * i + 3] as u32;
        let word = b0 + 0x100 * b1 + 0x1_0000 * b2 + 0x100_0000 * b3;
        words.push(word);
        i = i + 1;
    }
    Ok(words)
}

} // verus!
