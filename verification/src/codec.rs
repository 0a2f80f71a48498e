//! Decoding a compiled program binary from a byte stream into 32-bit
//! little-endian words, the first step of binary introspection.

use vstd::prelude::*;

use crate::error::HostError;

verus! {

/// The 32-bit word assembled from four consecutive bytes in
/// little-endian order: the first byte is the least significant.
pub open spec fn word_le(b0: u8, b1: u8, b2: u8, b3: u8) -> u32 {
    (b0 + b1 * 0x100 + b2 * 0x1_0000 + b3 * 0x100_0000) as u32
}

/// Word `i` of the little-endian decoding of `bytes`.
pub open spec fn decoded_word(bytes: Seq<u8>, i: int) -> u32 {
    word_le(bytes[4 * i], bytes[4 * i + 1], bytes[4 * i + 2], bytes[4 * i + 3])
}

/// The full word stream decoded from `bytes`; meaningful when the byte
/// length is a multiple of 4.
pub open spec fn decoded_words(bytes: Seq<u8>) -> Seq<u32> {
    Seq::new((bytes.len() / 4) as nat, |i: int| decoded_word(bytes, i))
}

/// Assembles one little-endian word from four bytes.
pub fn assemble_word(b0: u8, b1: u8, b2: u8, b3: u8) -> (w: u32)
    ensures
        w == word_le(b0, b1, b2, b3),
{
    b0 as u32 + b1 as u32 * 0x100 + b2 as u32 * 0x1_0000 + b3 as u32 * 0x100_0000
}

/// Decodes a program binary into 32-bit little-endian words.
/// Fails with `MalformedBinary` exactly when the byte length is not a
/// multiple of 4; otherwise every word is pinned to the byte stream.
pub fn decode_words(bytes: &Vec<u8>) -> (r: Result<Vec<u32>, HostError>)
    ensures
        r is Ok <==> bytes@.len() % 4 == 0,
        r matches Ok(words) ==> words@ == decoded_words(bytes@),
        r is Err ==> r matches Err(HostError::MalformedBinary),
{
    let n = bytes.len();
    if n % 4 != 0 {
        return Err(HostError::MalformedBinary);
    }
    let mut words: Vec<u32> = Vec::new();
    let count = n / 4;
    let mut i: usize = 0;
    while i < count
        invariant
            n == bytes@.len(),
            4 * count == n,
            i <= count,
            words@.len() == i,
            forall|j: int| 0 <= j < i ==> words@[j] == decoded_word(bytes@, j),
        decreases count - i,
    {
        let w = assemble_word(bytes[4 * i], bytes[4 * i + 1], bytes[4 * i + 2], bytes[4 * i + 3]);
        words.push(w);
        i = i + 1;
    }
    proof {
        assert(words@ =~= decoded_words(bytes@));
    }
    Ok(words)
}

} // verus!
