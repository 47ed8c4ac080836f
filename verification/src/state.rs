//! The Salsa20 state: 16 words holding the sigma constants, the key, the
//! nonce and the 64-bit block counter, with get/set of the counter for
//! random-access seeking.
use vstd::prelude::*;
use crate::words::le_word;
use crate::words::read_le_word;

verus! {

/// First word of "expand 32-byte k", the constant at position 0.
pub const SIGMA0: u32 = 0x61707865;

/// Second word of "expand 32-byte k", the constant at position 5.
pub const SIGMA1: u32 = 0x3320646e;

/// Third word of "expand 32-byte k", the constant at position 10.
pub const SIGMA2: u32 = 0x79622d32;

/// Fourth word of "expand 32-byte k", the constant at position 15.
pub const SIGMA3: u32 = 0x6b206574;

/// Key word `i` of a 32-byte key: the word read little-endian from
/// `key[4 * i .. 4 * i + 4]`.
pub open spec fn key_word(key: Seq<u8>, i: int) -> u32
    recommends
        key.len() == 32,
        0 <= i < 8,
{
    le_word(key[4 * i], key[4 * i + 1], key[4 * i + 2], key[4 * i + 3])
}

/// Nonce word `i` of an 8-byte nonce.
pub open spec fn nonce_word(nonce: Seq<u8>, i: int) -> u32
    recommends
        nonce.len() == 8,
        0 <= i < 2,
{
    le_word(nonce[4 * i], nonce[4 * i + 1], nonce[4 * i + 2], nonce[4 * i + 3])
}

/// The low counter word of a 64-bit block position.
pub open spec fn ctr_lo(c: nat) -> u32 {
    (c % 0x1_0000_0000) as u32
}

/// The high counter word of a 64-bit block position.
pub open spec fn ctr_hi(c: nat) -> u32
    recommends
        c < 0x1_0000_0000_0000_0000,
{
    (c / 0x1_0000_0000) as u32
}

/// The 64-bit block position held little-endian by counter words 8 and 9.
pub open spec fn block_pos_of(s: Seq<u32>) -> nat
    recommends
        s.len() == 16,
{
    (s[8] + s[9] * 0x1_0000_0000) as nat
}

/// The state with its counter words set to block position `c`; every other
/// word is left as it stands.
pub open spec fn with_ctr(s: Seq<u32>, c: nat) -> Seq<u32>
    recommends
        s.len() == 16,
        c < 0x1_0000_0000_0000_0000,
{
    s.update(8, ctr_lo(c)).update(9, ctr_hi(c))
}

/// The initial state for a 32-byte key and 8-byte nonce at counter 0: sigma
/// constants at positions 0, 5, 10, 15; key words at 1..=4 and 11..=14;
/// nonce words at 6 and 7; counter words at 8 and 9.
pub open spec fn init_state(key: Seq<u8>, nonce: Seq<u8>) -> Seq<u32>
    recommends
        key.len() == 32,
        nonce.len() == 8,
{
    seq![
        SIGMA0,
        key_word(key, 0),
        key_word(key, 1),
        key_word(key, 2),
        key_word(key, 3),
        SIGMA1,
        nonce_word(nonce, 0),
        nonce_word(nonce, 1),
        0u32,
        0u32,
        SIGMA2,
        key_word(key, 4),
        key_word(key, 5),
        key_word(key, 6),
        key_word(key, 7),
        SIGMA3,
    ]
}

/// Setting the counter to the position a state already holds changes
/// nothing.
pub proof fn lemma_with_ctr_roundtrip(s: Seq<u32>)
    requires
        s.len() == 16,
    ensures
        with_ctr(s, block_pos_of(s)) == s,
{
    let lo = s[8];
    let hi = s[9];
    assert((lo + hi * 0x1_0000_0000) % 0x1_0000_0000 == lo) by (nonlinear_arith)
        requires
            0 <= lo < 0x1_0000_0000,
            0 <= hi,
    ;
    assert((lo + hi * 0x1_0000_0000) / 0x1_0000_0000 == hi) by (nonlinear_arith)
        requires
            0 <= lo < 0x1_0000_0000,
            0 <= hi < 0x1_0000_0000,
    ;
    assert(with_ctr(s, block_pos_of(s)) =~= s);
}

/// Setting the counter twice keeps only the second position.
pub proof fn lemma_with_ctr_twice(s: Seq<u32>, c1: nat, c2: nat)
    requires
        s.len() == 16,
    ensures
        with_ctr(with_ctr(s, c1), c2) == with_ctr(s, c2),
{
    assert(with_ctr(with_ctr(s, c1), c2) =~= with_ctr(s, c2));
}

/// The 16-word working state of one cipher instance, together with the
/// round parameter: the number of double rounds the permutation runs (10
/// for the standard 20-round variant).
#[derive(Debug)]
pub struct SalsaCore {
    pub state: [u32; 16],
    pub rounds: usize,
}

impl SalsaCore {
    /// Builds the state from a 32-byte key and an 8-byte nonce, with the
    /// block counter at 0. `rounds` is the number of double rounds.
    pub fn new(key: &[u8], nonce: &[u8], rounds: usize) -> (core: SalsaCore)
        requires
            key@.len() == 32,
            nonce@.len() == 8,
        ensures
            core.state@ == init_state(key@, nonce@),
            core.rounds == rounds,
    {
        let mut state: [u32; 16] = [0u32; 16];
        state[0] = SIGMA0;
        state[1] = read_le_word(key, 0);
        state[2] = read_le_word(key, 4);
        state[3] = read_le_word(key, 8);
        state[4] = read_le_word(key, 12);
        state[5] = SIGMA1;
        state[6] = read_le_word(nonce, 0);
        state[7] = read_le_word(nonce, 4);
        state[10] = SIGMA2;
        state[11] = read_le_word(key, 16);
        state[12] = read_le_word(key, 20);
        state[13] = read_le_word(key, 24);
        state[14] = read_le_word(key, 28);
        state[15] = SIGMA3;
        proof {
            assert(state@ =~= init_state(key@, nonce@));
        }
        SalsaCore { state, rounds }
    }

    /// Reads the current block position from the two counter words.
    pub fn get_block_pos(&self) -> (pos: u64)
        ensures
            pos as nat == block_pos_of(self.state@),
    {
        let lo = self.state[8];
        let hi = self.state[9];
        let pos = (lo as u64) | ((hi as u64) << 32);
        proof {
            assert((lo as u64) | ((hi as u64) << 32) == lo + hi * 0x1_0000_0000) by (bit_vector);
        }
        pos
    }

    /// Writes block position `pos` into the two counter words, so that the
    /// next generated block is block `pos` of the keystream.
    pub fn set_block_pos(&mut self, pos: u64)
        ensures
            final(self).state@ == with_ctr(old(self).state@, pos as nat),
            final(self).rounds == old(self).rounds,
    {
        proof {
            assert(pos >> 32 < 0x1_0000_0000 && (pos >> 32) as u32 == pos / 0x1_0000_0000 && (
            pos as u32) == pos % 0x1_0000_0000) by (bit_vector);
        }
        let lo: u32 = #[verifier::truncate] (pos as u32);
        let hi: u32 = (pos >> 32) as u32;
        self.state[8] = lo;
        self.state[9] = hi;
    }
}

} // verus!
