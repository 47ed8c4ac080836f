//! Little-endian conversion between 32-bit words and bytes.
use vstd::prelude::*;

verus! {

/// Byte `k` of the little-endian serialization of a 32-bit word.
pub open spec fn word_byte(w: u32, k: int) -> u8
    recommends
        0 <= k < 4,
{
    if k == 0 {
        (w & 0xff) as u8
    } else if k == 1 {
        ((w >> 8) & 0xff) as u8
    } else if k == 2 {
        ((w >> 16) & 0xff) as u8
    } else {
        ((w >> 24) & 0xff) as u8
    }
}

/// The little-endian serialization of a word sequence, four bytes per word.
pub open spec fn le_bytes_of_words(s: Seq<u32>) -> Seq<u8> {
    Seq::new(s.len() * 4, |i: int| word_byte(s[i / 4], i % 4))
}

/// The 32-bit word read little-endian from four bytes.
pub open spec fn le_word(b0: u8, b1: u8, b2: u8, b3: u8) -> u32 {
    (b0 as u32) | ((b1 as u32) << 8) | ((b2 as u32) << 16) | ((b3 as u32) << 24)
}

/// Serializes 16 words into 64 bytes, little-endian.
pub fn words_to_le_bytes(words: &[u32; 16]) -> (out: [u8; 64])
    ensures
        out@ == le_bytes_of_words(words@),
{
    let mut out: [u8; 64] = [0u8; 64];
    let mut i: usize = 0;
    while i < 16
        invariant
            i <= 16,
            forall|j: int| 0 <= j < i * 4 ==> out@[j] == le_bytes_of_words(words@)[j],
        decreases 16 - i,
    {
        let w = words[i];
        out[4 * i] = (w & 0xff) as u8;
        out[4 * i + 1] = ((w >> 8) & 0xff) as u8;
        out[4 * i + 2] = ((w >> 16) & 0xff) as u8;
        out[4 * i + 3] = ((w >> 24) & 0xff) as u8;
        i = i + 1;
    }
    assert(out@ =~= le_bytes_of_words(words@));
    out
}

/// Reads the 32-bit word stored little-endian at `bytes[off .. off + 4]`.
pub fn read_le_word(bytes: &[u8], off: usize) -> (w: u32)
    requires
        off + 4 <= bytes@.len(),
    ensures
        w == le_word(
            bytes@[off as int],
            bytes@[off as int + 1],
            bytes@[off as int + 2],
            bytes@[off as int + 3],
        ),
{
    (bytes[off] as u32) | ((bytes[off + 1] as u32) << 8) | ((bytes[off + 2] as u32) << 16) | ((
    bytes[off + 3] as u32) << 24)
}

} // verus!
