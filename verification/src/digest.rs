//! The digest engine: the executable MD5 computation.
use vstd::prelude::*;
use vstd::slice::slice_subrange;
use vstd::string::StringSliceAdditionalSpecFns;

use crate::hex::{hex_encoded, to_hex};
use crate::model::{
    absorbed, advance, block_at, compress, digest_of_words, md5, mix, step, steps, word_index,
};
use crate::padding::{pack, pad};
use crate::state::Md5State;
use crate::tables::{K, S};
use crate::word::rotate_left;

verus! {

/// The MD5 hasher. It holds no data: every computation starts from the
/// same initial state and shares nothing with any other.
pub struct Md5;

impl Md5 {
    /// Creates a hasher.
    pub fn new() -> (hasher: Md5)
        ensures
            hasher == Md5,
    {
        Md5
    }

    /// Computes the digest of a string and renders it as 32 lowercase
    /// hexadecimal digits. The bytes of the string are hashed as they are
    /// stored, with no transcoding.
    pub fn hash_string(&self, message: &str) -> (hex: String)
        ensures
            hex@ == hex_encoded(md5(message.spec_bytes())),
            hex@.len() == 32,
    {
        self.hash_hex(message.as_bytes())
    }

    /// Computes the digest of `message` and renders it as 32 lowercase
    /// hexadecimal digits, two for each byte of the digest in order.
    pub fn hash_hex(&self, message: &[u8]) -> (hex: String)
        ensures
            hex@ == hex_encoded(md5(message@)),
            hex@.len() == 32,
    {
        let digest: Vec<u8> = self.hash(message);
        to_hex(digest.as_slice())
    }

    /// Computes the 16-byte digest of `message`. Every message has one,
    /// the empty message too. The length that enters the digest is counted
    /// in bits modulo 2^64.
    pub fn hash(&self, message: &[u8]) -> (digest: Vec<u8>)
        ensures
            digest@ == md5(message@),
            digest@.len() == 16,
    {
        let bytes: Vec<u8> = pad(message);
        let words: Vec<u32> = pack(bytes.as_slice());
        Self::hash_padded(words)
    }

    /// Computes the digest of a message that is already padded and packed
    /// into words. Each complete block of 16 words is absorbed in order;
    /// words after the last complete block are ignored.
    pub fn hash_padded(message: Vec<u32>) -> (digest: Vec<u8>)
        ensures
            digest@ == digest_of_words(message@),
            digest@.len() == 16,
    {
        let mut state: Md5State = Md5State::initial();
        let blocks: usize = message.len() / 16;
        let mut k: usize = 0;
        while k < blocks
            invariant
                k <= blocks,
                blocks == message@.len() / 16,
                message@.len() <= usize::MAX,
                state == absorbed(message@, k as nat),
            decreases blocks - k,
        {
            let chunk: &[u32] = slice_subrange(message.as_slice(), 16 * k, 16 * k + 16);
            assert(chunk@ == block_at(message@, k as int));
            Self::process(&mut state, chunk);
            k = k + 1;
        }
        state.to_bytes()
    }

    /// Absorbs one block of 16 words into the state.
    pub fn process(state: &mut Md5State, chunk: &[u32])
        requires
            chunk@.len() == 16,
        ensures
            *final(state) == compress(*old(state), chunk@),
    {
        let start: Md5State = *state;
        let mut w: Md5State = start;
        let mut i: usize = 0;
        while i < 64
            invariant
                i <= 64,
                chunk@.len() == 16,
                w == steps(start, chunk@, i as nat),
            decreases 64 - i,
        {
            w = Self::step(w, chunk, i);
            i = i + 1;
        }
        *state = Md5State {
            a: start.a.wrapping_add(w.a),
            b: start.b.wrapping_add(w.b),
            c: start.c.wrapping_add(w.c),
            d: start.d.wrapping_add(w.d),
        };
    }

    /// Applies step `i` of the compression function to the working
    /// accumulators `w`.
    pub fn step(w: Md5State, chunk: &[u32], i: usize) -> (next: Md5State)
        requires
            chunk@.len() == 16,
            i < 64,
        ensures
            next == step(w, chunk@, i as int),
    {
        let (f, g): (u32, usize) = Self::select(w, i);
        Self::advance(w, f, K[i], chunk[g], S[i])
    }

    /// Moves the working accumulators one step on: adds `f`, the constant
    /// `k` and the block word `x` to `a`, rotates the sum left by `s` bits,
    /// adds it to `b`, and shifts the accumulators round by one place.
    fn advance(w: Md5State, f: u32, k: u32, x: u32, s: u32) -> (next: Md5State)
        ensures
            next == advance(w, f, k, x, s),
    {
        let sum: u32 = f.wrapping_add(w.a).wrapping_add(k).wrapping_add(x);
        Md5State { a: w.d, b: w.b.wrapping_add(rotate_left(sum, s)), c: w.b, d: w.c }
    }

    /// The value of the non-linear function of step `i` on the working
    /// accumulators, and the index of the block word that the step adds.
    fn select(w: Md5State, i: usize) -> (choice: (u32, usize))
        requires
            i < 64,
        ensures
            choice.0 == mix(i as int, w.b, w.c, w.d),
            choice.1 == word_index(i as int),
            choice.1 < 16,
    {
        if i < 16 {
            ((w.b & w.c) | (!w.b & w.d), i)
        } else if i < 32 {
            ((w.d & w.b) | (!w.d & w.c), (5 * i + 1) % 16)
        } else if i < 48 {
            (w.b ^ w.c ^ w.d, (3 * i + 5) % 16)
        } else {
            (w.c ^ (w.b | !w.d), (7 * i) % 16)
        }
    }
}

} // verus!
