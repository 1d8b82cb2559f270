//! The MD5 function as mathematics: a digest is defined for every byte
//! sequence, of any length, by padding it, reading the result as 32-bit
//! words and folding the compression function over its blocks.
//!
//! The executable code is proved against these definitions.
use vstd::prelude::*;

use crate::endian::{le_bytes, le_value};
use crate::state::{initial_state, state_bytes, Md5State};
use crate::tables::{K, S};
use crate::word::{add32, rotl32};

verus! {

/// Number of zero bytes between the `0x80` marker and the length field of a
/// padded message of `len` bytes: the least count that brings the length,
/// marker included, to 56 modulo 64.
pub open spec fn zero_count(len: nat) -> nat {
    ((55 - len) % 64) as nat
}

/// The length of a message of `len` bytes in bits, modulo 2^64.
pub open spec fn bit_length(len: nat) -> nat {
    (8 * len) % 0x1_0000_0000_0000_0000
}

/// The padded message: the message, one byte `0x80`, `zero_count` zero bytes
/// and the bit length in eight bytes, least significant first.
pub open spec fn padded(message: Seq<u8>) -> Seq<u8> {
    message + seq![0x80u8] + Seq::new(zero_count(message.len()), |i: int| 0u8) + le_bytes(
        bit_length(message.len()),
        8,
    )
}

/// The `i`-th 32-bit word of a byte sequence: bytes `4i` to `4i + 3`, least
/// significant first.
pub open spec fn word_at(bytes: Seq<u8>, i: int) -> u32 {
    le_value(bytes.subrange(4 * i, 4 * i + 4)) as u32
}

/// A byte sequence read as 32-bit words. Bytes beyond the last multiple of
/// four are not part of any word.
pub open spec fn packed(bytes: Seq<u8>) -> Seq<u32> {
    Seq::new(bytes.len() / 4, |i: int| word_at(bytes, i))
}

/// The non-linear function of step `i`, applied to the accumulators `b`,
/// `c` and `d`.
pub open spec fn mix(i: int, b: u32, c: u32, d: u32) -> u32 {
    if i < 16 {
        (b & c) | (!b & d)
    } else if i < 32 {
        (d & b) | (!d & c)
    } else if i < 48 {
        b ^ c ^ d
    } else {
        c ^ (b | !d)
    }
}

/// The index of the block word that step `i` adds.
pub open spec fn word_index(i: int) -> int {
    if i < 16 {
        i
    } else if i < 32 {
        (5 * i + 1) % 16
    } else if i < 48 {
        (3 * i + 5) % 16
    } else {
        (7 * i) % 16
    }
}

/// The working accumulators one step on: `f`, the constant `k` and the
/// block word `x` are added to `a`, the sum is rotated left by `s` bits and
/// added to `b`, which becomes the new `b`; the old `b`, `c` and `d` move on
/// to `c`, `d` and `a`. Every addition is modulo 2^32.
pub open spec fn advance(w: Md5State, f: u32, k: u32, x: u32, s: u32) -> Md5State {
    let sum = add32(add32(add32(f, w.a), k), x);
    Md5State { a: w.d, b: add32(w.b, rotl32(sum, s)), c: w.b, d: w.c }
}

/// Step `i` of the compression function on the working accumulators.
pub open spec fn step(w: Md5State, block: Seq<u32>, i: int) -> Md5State {
    advance(w, mix(i, w.b, w.c, w.d), K[i], block[word_index(i)], S[i])
}

/// The working accumulators after the first `n` steps on `block`.
pub open spec fn steps(w: Md5State, block: Seq<u32>, n: nat) -> Md5State
    decreases n,
{
    if n == 0 {
        w
    } else {
        step(steps(w, block, (n - 1) as nat), block, n - 1)
    }
}

/// The compression function: the state after a block of 16 words has been
/// absorbed. All 64 steps run on a copy of the state, which is then added
/// to the state word by word.
pub open spec fn compress(state: Md5State, block: Seq<u32>) -> Md5State {
    let w = steps(state, block, 64);
    Md5State {
        a: add32(state.a, w.a),
        b: add32(state.b, w.b),
        c: add32(state.c, w.c),
        d: add32(state.d, w.d),
    }
}

/// The `k`-th block of a word sequence: words `16k` to `16k + 15`.
pub open spec fn block_at(words: Seq<u32>, k: int) -> Seq<u32> {
    words.subrange(16 * k, 16 * k + 16)
}

/// The state after the first `n` blocks of `words` have been absorbed, in
/// order, starting from the initial state.
pub open spec fn absorbed(words: Seq<u32>, n: nat) -> Md5State
    decreases n,
{
    if n == 0 {
        initial_state()
    } else {
        compress(absorbed(words, (n - 1) as nat), block_at(words, n - 1))
    }
}

/// The digest of a word sequence that is already padded: every complete
/// block is absorbed. Words beyond the last complete block are ignored.
pub open spec fn digest_of_words(words: Seq<u32>) -> Seq<u8> {
    state_bytes(absorbed(words, words.len() / 16))
}

/// The MD5 digest of a message.
pub open spec fn md5(message: Seq<u8>) -> Seq<u8> {
    digest_of_words(packed(padded(message)))
}

} // verus!
