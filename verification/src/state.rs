//! The running state of a digest computation.
use vstd::prelude::*;

use crate::endian::{le_bytes, lemma_le_bytes_len, write_le};
use crate::tables::{INIT_A, INIT_B, INIT_C, INIT_D};

verus! {

/// The four 32-bit accumulators that carry the digest from block to block.
#[derive(Clone, Copy, Debug, PartialEq, Eq, Structural)]
pub struct Md5State {
    pub a: u32,
    pub b: u32,
    pub c: u32,
    pub d: u32,
}

/// The state that every computation starts from.
pub open spec fn initial_state() -> Md5State {
    Md5State { a: INIT_A, b: INIT_B, c: INIT_C, d: INIT_D }
}

/// The sixteen bytes of a state: `a`, `b`, `c`, `d` in that order, each
/// least significant byte first.
pub open spec fn state_bytes(state: Md5State) -> Seq<u8> {
    le_bytes(state.a as nat, 4) + le_bytes(state.b as nat, 4) + le_bytes(state.c as nat, 4)
        + le_bytes(state.d as nat, 4)
}

/// A state serialises to sixteen bytes.
pub proof fn lemma_state_bytes_len(state: Md5State)
    ensures
        state_bytes(state).len() == 16,
{
    lemma_le_bytes_len(state.a as nat, 4);
    lemma_le_bytes_len(state.b as nat, 4);
    lemma_le_bytes_len(state.c as nat, 4);
    lemma_le_bytes_len(state.d as nat, 4);
}

impl Md5State {
    /// The state before any block has been absorbed.
    pub fn initial() -> (state: Md5State)
        ensures
            state == initial_state(),
    {
        Md5State { a: INIT_A, b: INIT_B, c: INIT_C, d: INIT_D }
    }

    /// Serialises the state as the sixteen digest bytes.
    pub fn to_bytes(&self) -> (bytes: Vec<u8>)
        ensures
            bytes@ == state_bytes(*self),
            bytes@.len() == 16,
    {
        let mut bytes: Vec<u8> = Vec::new();
        write_le(&mut bytes, self.a as u64, 4);
        write_le(&mut bytes, self.b as u64, 4);
        write_le(&mut bytes, self.c as u64, 4);
        write_le(&mut bytes, self.d as u64, 4);
        proof {
            lemma_state_bytes_len(*self);
            assert(bytes@ =~= state_bytes(*self));
        }
        bytes
    }
}

} // verus!
