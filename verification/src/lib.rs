//! Salsa20 family stream cipher core: the 16-word state, the quarter-round
//! permutation, interchangeable keystream backends, a seekable block counter,
//! and the orchestrator that exclusive-ors the keystream into caller buffers.
use vstd::prelude::*;

pub mod backend;
pub mod cipher;
pub mod rounds;
pub mod state;
pub mod words;

verus! {

/// Length in bytes of the secret key accepted by the cipher.
pub const KEY_SIZE: usize = 32;

/// Length in bytes of the nonce (initialization vector).
pub const IV_SIZE: usize = 8;

/// Length in bytes of one keystream block.
pub const BLOCK_SIZE: usize = 64;

} // verus!
