//! The cipher orchestrator: owns the state, asks a backend for keystream
//! blocks, and exclusive-ors them into caller buffers across block
//! boundaries, with byte-exact seeking.
use vstd::prelude::*;
use crate::backend::salsa_block;
use crate::backend::Backend;
use crate::state::block_pos_of;
use crate::state::init_state;
use crate::state::lemma_with_ctr_roundtrip;
use crate::state::lemma_with_ctr_twice;
use crate::state::with_ctr;
use crate::state::SalsaCore;

verus! {

/// Why a call was refused.
#[derive(Clone, Copy, PartialEq, Eq, Structural, Debug)]
pub enum Error {
    /// The key or the nonce does not have its required length.
    InvalidLength,
    /// The requested bytes would run the block counter past its range;
    /// nothing was written.
    CounterExhausted,
}

/// One past the last byte position the keystream reaches: the counter never
/// passes its maximum value, so the block at that value is never generated.
pub open spec fn pos_limit() -> nat {
    0xffff_ffff_ffff_ffff * 64
}

/// Byte `n` of the keystream determined by state words `s` (whatever
/// counter they hold) and round parameter `dr`.
pub open spec fn keystream_byte(s: Seq<u32>, dr: nat, n: nat) -> u8
    recommends
        s.len() == 16,
        n < pos_limit(),
{
    salsa_block(with_ctr(s, n / 64), dr)[(n % 64) as int]
}

/// `data` exclusive-ored with the keystream starting at byte position
/// `pos`: the cumulative effect of applying the cipher to `data` there.
pub open spec fn xor_keystream(data: Seq<u8>, s: Seq<u32>, dr: nat, pos: nat) -> Seq<u8> {
    Seq::new(data.len(), |i: int| data[i] ^ keystream_byte(s, dr, (pos + i) as nat))
}

/// Byte `j` of the keystream window of block `n` is byte `j` of block `n`:
/// seeking to block `n` and generating one block yields exactly the bytes
/// that sequential generation from block 0 reaches at positions
/// `n * 64 .. n * 64 + 64`.
pub proof fn lemma_seek_consistency(s: Seq<u32>, dr: nat, n: nat)
    requires
        s.len() == 16,
        n < 0x1_0000_0000_0000_0000,
    ensures
        forall|j: int|
            0 <= j < 64 ==> keystream_byte(s, dr, (n * 64 + j) as nat) == salsa_block(
                with_ctr(s, n),
                dr,
            )[j],
{
    assert forall|j: int|
        0 <= j < 64 implies keystream_byte(s, dr, (n * 64 + j) as nat) == salsa_block(
        with_ctr(s, n),
        dr,
    )[j] by {
        lemma_block_offset(n, j);
    }
}

/// Division and remainder of a position inside block `c` at offset `j`.
proof fn lemma_block_offset(c: nat, j: int)
    requires
        0 <= j < 64,
    ensures
        (c * 64 + j) / 64 == c,
        (c * 64 + j) % 64 == j,
{
    assert((c * 64 + j) / 64 == c && (c * 64 + j) % 64 == j) by (nonlinear_arith)
        requires
            c >= 0,
            0 <= j < 64,
    ;
}

/// Applying the keystream transform twice from the same position restores
/// the data: exclusive-or is its own inverse.
pub proof fn lemma_keystream_involution(data: Seq<u8>, s: Seq<u32>, dr: nat, pos: nat)
    ensures
        xor_keystream(xor_keystream(data, s, dr, pos), s, dr, pos) == data,
{
    let twice = xor_keystream(xor_keystream(data, s, dr, pos), s, dr, pos);
    assert forall|i: int| 0 <= i < data.len() implies twice[i] == data[i] by {
        let k = keystream_byte(s, dr, (pos + i) as nat);
        let x = data[i];
        assert((x ^ k) ^ k == x) by (bit_vector);
    }
    assert(twice =~= data);
}

/// Applying the keystream to a concatenation equals applying it to the
/// first part and then to the second at the advanced position: transforming
/// in chunks has the same cumulative effect as one call on the whole.
pub proof fn lemma_keystream_chunking(d1: Seq<u8>, d2: Seq<u8>, s: Seq<u32>, dr: nat, pos: nat)
    ensures
        xor_keystream(d1 + d2, s, dr, pos) == xor_keystream(d1, s, dr, pos) + xor_keystream(
            d2,
            s,
            dr,
            pos + d1.len(),
        ),
{
    assert(xor_keystream(d1 + d2, s, dr, pos) =~= xor_keystream(d1, s, dr, pos) + xor_keystream(
        d2,
        s,
        dr,
        pos + d1.len(),
    ));
}

/// What a cipher instance means: the state words (with the counter zeroed;
/// constants, key and nonce never change), the round parameter, and the
/// absolute keystream byte position the next transformed byte will use.
pub ghost struct SalsaView {
    pub words: Seq<u32>,
    pub rounds: nat,
    pub pos: nat,
}

/// A Salsa stream cipher instance: state, chosen backend, and the buffered
/// remainder of the block the cursor stands in.
#[derive(Debug)]
pub struct Salsa {
    core: SalsaCore,
    backend: Backend,
    buffer: [u8; 64],
    cursor: usize,
}

impl View for Salsa {
    type V = SalsaView;

    closed spec fn view(&self) -> SalsaView {
        SalsaView {
            words: with_ctr(self.core.state@, 0),
            rounds: self.core.rounds as nat,
            pos: if self.cursor == 0 {
                block_pos_of(self.core.state@) * 64
            } else {
                (((block_pos_of(self.core.state@) - 1) * 64 + self.cursor) as nat)
            },
        }
    }
}

impl Salsa {
    /// The cursor stays inside one block, and a nonzero cursor means the
    /// buffer holds the block just before the counter's position.
    pub closed spec fn wf(&self) -> bool {
        &&& self.cursor < 64
        &&& self.cursor > 0 ==> {
            &&& block_pos_of(self.core.state@) >= 1
            &&& self.buffer@ == salsa_block(
                with_ctr(self.core.state@, (block_pos_of(self.core.state@) - 1) as nat),
                self.core.rounds as nat,
            )
        }
    }

    /// Builds a cipher with the chosen backend and round parameter
    /// (`double_rounds` double rounds, so 10 for the 20-round variant).
    /// The key must be exactly 32 bytes and the nonce exactly 8.
    pub fn new_with(backend: Backend, double_rounds: usize, key: &[u8], nonce: &[u8]) -> (r: Result<
        Salsa,
        Error,
    >)
        ensures
            match r {
                Ok(ci) => {
                    &&& key@.len() == 32
                    &&& nonce@.len() == 8
                    &&& ci.wf()
                    &&& ci@.words == init_state(key@, nonce@)
                    &&& ci@.rounds == double_rounds
                    &&& ci@.pos == 0
                },
                Err(e) => {
                    &&& e == Error::InvalidLength
                    &&& !(key@.len() == 32 && nonce@.len() == 8)
                },
            },
    {
        if key.len() != crate::KEY_SIZE || nonce.len() != crate::IV_SIZE {
            return Err(Error::InvalidLength);
        }
        let core = SalsaCore::new(key, nonce, double_rounds);
        let ci = Salsa { core, backend, buffer: [0u8; 64], cursor: 0 };
        proof {
            assert(with_ctr(init_state(key@, nonce@), 0) =~= init_state(key@, nonce@));
            assert(block_pos_of(ci.core.state@) == 0);
        }
        Ok(ci)
    }

    /// Builds the standard 20-round cipher on the portable backend.
    pub fn new(key: &[u8], nonce: &[u8]) -> (r: Result<Salsa, Error>)
        ensures
            match r {
                Ok(ci) => {
                    &&& key@.len() == 32
                    &&& nonce@.len() == 8
                    &&& ci.wf()
                    &&& ci@.words == init_state(key@, nonce@)
                    &&& ci@.rounds == 10
                    &&& ci@.pos == 0
                },
                Err(e) => {
                    &&& e == Error::InvalidLength
                    &&& !(key@.len() == 32 && nonce@.len() == 8)
                },
            },
    {
        Salsa::new_with(Backend::Soft, 10, key, nonce)
    }

    /// Exclusive-ors the keystream into `buf` in place, starting at the
    /// cipher's current position and advancing the position by `buf`'s
    /// length, so that calls on consecutive chunks compose into one
    /// transform of the whole. Fails, writing nothing, exactly when the
    /// requested bytes would run the block counter past its range.
    pub fn apply_keystream(&mut self, buf: &mut Vec<u8>) -> (r: Result<(), Error>)
        requires
            old(self).wf(),
        ensures
            final(self).wf(),
            final(self)@.words == old(self)@.words,
            final(self)@.rounds == old(self)@.rounds,
            match r {
                Ok(_) => {
                    &&& old(self)@.pos + old(buf)@.len() <= pos_limit()
                    &&& final(self)@.pos == old(self)@.pos + old(buf)@.len()
                    &&& final(buf)@ == xor_keystream(
                        old(buf)@,
                        old(self)@.words,
                        old(self)@.rounds,
                        old(self)@.pos,
                    )
                },
                Err(e) => {
                    &&& e == Error::CounterExhausted
                    &&& old(self)@.pos + old(buf)@.len() > pos_limit()
                    &&& *final(self) == *old(self)
                    &&& final(buf)@ == old(buf)@
                },
            },
    {
        let bp = self.core.get_block_pos();
        let rem_blocks: u64 = 0xffff_ffff_ffff_ffffu64 - bp;
        let tail: u128 = if self.cursor == 0 {
            0
        } else {
            (64 - self.cursor) as u128
        };
        let avail: u128 = (rem_blocks as u128) * 64 + tail;
        if (buf.len() as u128) > avail {
            return Err(Error::CounterExhausted);
        }
        let n = buf.len();
        let mut i: usize = 0;
        while i < n
            invariant
                self.wf(),
                n == buf@.len(),
                i <= n,
                self@.words == old(self)@.words,
                self@.rounds == old(self)@.rounds,
                self@.pos == old(self)@.pos + i,
                old(self)@.pos + n <= pos_limit(),
                forall|j: int|
                    0 <= j < i ==> buf@[j] == old(buf)@[j] ^ keystream_byte(
                        old(self)@.words,
                        old(self)@.rounds,
                        (old(self)@.pos + j) as nat,
                    ),
                forall|j: int| i <= j < n ==> buf@[j] == old(buf)@[j],
            decreases n - i,
        {
            if self.cursor == 0 {
                let ghost before = self.core.state@;
                self.buffer = self.backend.gen_ks_block(&mut self.core);
                proof {
                    lemma_with_ctr_roundtrip(before);
                    lemma_with_ctr_twice(before, block_pos_of(before) + 1, block_pos_of(before));
                    lemma_with_ctr_twice(before, block_pos_of(before) + 1, 0);
                }
            }
            let ghost cb = (block_pos_of(self.core.state@) - 1) as nat;
            proof {
                lemma_with_ctr_twice(self.core.state@, 0, cb);
                lemma_block_offset(cb, self.cursor as int);
                assert(self.buffer@[self.cursor as int] == keystream_byte(
                    old(self)@.words,
                    old(self)@.rounds,
                    (old(self)@.pos + i) as nat,
                ));
            }
            let b = buf[i] ^ self.buffer[self.cursor];
            buf[i] = b;
            self.cursor = self.cursor + 1;
            if self.cursor == crate::BLOCK_SIZE {
                self.cursor = 0;
            }
            i = i + 1;
        }
        proof {
            assert(buf@ =~= xor_keystream(
                old(buf)@,
                old(self)@.words,
                old(self)@.rounds,
                old(self)@.pos,
            ));
        }
        Ok(())
    }

    /// Repositions the cipher at the start of keystream block `block`; the
    /// next transformed byte uses position `block * 64`.
    pub fn seek_to_block(&mut self, block: u64)
        requires
            old(self).wf(),
        ensures
            final(self).wf(),
            final(self)@.words == old(self)@.words,
            final(self)@.rounds == old(self)@.rounds,
            final(self)@.pos == block as nat * 64,
    {
        proof {
            lemma_with_ctr_twice(self.core.state@, block as nat, 0);
            lemma_block_pos_with_ctr(self.core.state@, block as nat);
        }
        self.core.set_block_pos(block);
        self.cursor = 0;
    }

    /// Repositions the cipher at keystream byte `pos`: seeks to the
    /// containing block and discards that block's leading bytes, so the
    /// next transformed byte uses position `pos` exactly.
    pub fn seek(&mut self, pos: u64)
        requires
            old(self).wf(),
        ensures
            final(self).wf(),
            final(self)@.words == old(self)@.words,
            final(self)@.rounds == old(self)@.rounds,
            final(self)@.pos == pos as nat,
    {
        let block = pos / 64;
        let off = pos % 64;
        proof {
            lemma_with_ctr_twice(self.core.state@, block as nat, 0);
            lemma_block_pos_with_ctr(self.core.state@, block as nat);
        }
        self.core.set_block_pos(block);
        if off == 0 {
            self.cursor = 0;
        } else {
            let ghost sought = self.core.state@;
            self.buffer = self.backend.gen_ks_block(&mut self.core);
            self.cursor = off as usize;
            proof {
                lemma_with_ctr_twice(sought, (block + 1) as nat, block as nat);
                lemma_with_ctr_twice(sought, (block + 1) as nat, 0);
                lemma_with_ctr_roundtrip(sought);
                lemma_block_pos_with_ctr(sought, (block + 1) as nat);
            }
        }
    }
}

/// Writing position `c` into a state's counter words makes `c` its block
/// position.
pub proof fn lemma_block_pos_with_ctr(s: Seq<u32>, c: nat)
    requires
        s.len() == 16,
        c < 0x1_0000_0000_0000_0000,
    ensures
        block_pos_of(with_ctr(s, c)) == c,
{
    assert(c % 0x1_0000_0000 + (c / 0x1_0000_0000) * 0x1_0000_0000 == c && c / 0x1_0000_0000
        < 0x1_0000_0000) by (nonlinear_arith)
        requires
            0 <= c < 0x1_0000_0000_0000_0000,
    ;
}

} // verus!

