//! Keystream backends: interchangeable strategies that turn the state at
//! its current block position into one 64-byte keystream block and advance
//! the position by one.
use vstd::prelude::*;
use crate::rounds::run_rounds;
use crate::rounds::run_rounds_wide;
use crate::rounds::spec_permute;
use crate::rounds::wadd;
use crate::state::block_pos_of;
use crate::state::with_ctr;
use crate::state::SalsaCore;
use crate::words::le_bytes_of_words;
use crate::words::words_to_le_bytes;

verus! {

/// The word-wise wrapping sum of the permuted state and the state itself.
pub open spec fn add_words(x: Seq<u32>, y: Seq<u32>) -> Seq<u32>
    recommends
        x.len() == 16,
        y.len() == 16,
{
    Seq::new(16, |i: int| wadd(x[i], y[i]))
}

/// One keystream block of a 16-word state: run the permutation, add the
/// pre-permutation words back word-wise, and serialize little-endian.
pub open spec fn salsa_block(s: Seq<u32>, dr: nat) -> Seq<u8>
    recommends
        s.len() == 16,
{
    le_bytes_of_words(add_words(spec_permute(s, dr), s))
}

/// The execution strategies a cipher can be built with. Both produce the
/// same block for the same state: their one shared contract below speaks
/// for either variant.
#[derive(Clone, Copy, PartialEq, Eq, Structural, Debug)]
pub enum Backend {
    /// Portable word-by-word arithmetic, the correctness baseline.
    Soft,
    /// Lane-parallel arithmetic over the four columns of the state matrix.
    Vectorized,
}

impl Backend {
    /// Generates the keystream block selected by the state's current block
    /// position and advances that position by one. No other word of the
    /// state changes.
    pub fn gen_ks_block(&self, core: &mut SalsaCore) -> (block: [u8; 64])
        requires
            block_pos_of(old(core).state@) < 0xffff_ffff_ffff_ffff,
        ensures
            block@ == salsa_block(old(core).state@, old(core).rounds as nat),
            final(core).state@ == with_ctr(
                old(core).state@,
                block_pos_of(old(core).state@) + 1,
            ),
            final(core).rounds == old(core).rounds,
    {
        let permuted: [u32; 16] = match self {
            Backend::Soft => run_rounds(&core.state, core.rounds),
            Backend::Vectorized => run_rounds_wide(&core.state, core.rounds),
        };
        let mut sum: [u32; 16] = [0u32; 16];
        let mut i: usize = 0;
        while i < 16
            invariant
                i <= 16,
                permuted@ == spec_permute(core.state@, core.rounds as nat),
                forall|j: int|
                    0 <= j < i ==> sum@[j] == add_words(permuted@, core.state@)[j],
            decreases 16 - i,
        {
            sum[i] = permuted[i].wrapping_add(core.state[i]);
            i = i + 1;
        }
        proof {
            assert(sum@ =~= add_words(permuted@, core.state@));
        }
        let block = words_to_le_bytes(&sum);
        let pos = core.get_block_pos();
        core.set_block_pos(pos + 1);
        block
    }
}

} // verus!
