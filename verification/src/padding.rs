//! Padding a message to whole blocks and packing bytes into words.
use vstd::prelude::*;
use vstd::slice::slice_to_vec;

use crate::endian::{read_word, write_le};
use crate::laws::lemma_padded_shape;
use crate::model::{bit_length, packed, padded, word_at, zero_count};

verus! {

/// Pads a message: appends the byte `0x80`, then zero bytes up to a length
/// of 56 modulo 64, then the message's length in bits, modulo 2^64, in
/// eight bytes, least significant first. The result is a whole number of
/// 64-byte blocks, at least one.
pub fn pad(message: &[u8]) -> (out: Vec<u8>)
    ensures
        out@ == padded(message@),
        out@.len() % 64 == 0,
        out@.len() > message@.len(),
        out@[message@.len() as int] == 0x80,
{
    let ghost len = message@.len();
    let mut out: Vec<u8> = slice_to_vec(message);
    out.push(0x80);
    assert(out@ =~= message@ + seq![0x80u8] + Seq::new(0, |i: int| 0u8));
    while out.len() % 64 != 56
        invariant
            len == message@.len(),
            out@.len() > len,
            out@.len() - len - 1 <= zero_count(len),
            out@ == message@ + seq![0x80u8] + Seq::new(
                (out@.len() - len - 1) as nat,
                |i: int| 0u8,
            ),
        decreases zero_count(len) - (out@.len() - len - 1),
    {
        let ghost before = out@;
        out.push(0x00);
        assert(out@ =~= message@ + seq![0x80u8] + Seq::new(
            (before.len() - len) as nat,
            |i: int| 0u8,
        ));
    }
    assert(out@.len() - len - 1 == zero_count(len));
    let bits: u64 = (message.len() as u64).wrapping_mul(8);
    assert(bits == bit_length(len));
    write_le(&mut out, bits, 8);
    proof {
        lemma_padded_shape(message@);
    }
    out
}

/// Reads a byte sequence as 32-bit words, four bytes to a word, least
/// significant byte first. Up to three bytes after the last complete word
/// are left out.
pub fn pack(bytes: &[u8]) -> (words: Vec<u32>)
    ensures
        words@ == packed(bytes@),
{
    let count: usize = bytes.len() / 4;
    let mut words: Vec<u32> = Vec::new();
    let mut i: usize = 0;
    while i < count
        invariant
            i <= count,
            count == bytes@.len() / 4,
            bytes@.len() <= usize::MAX,
            words@.len() == i,
            forall|j: int| 0 <= j < i ==> words@[j] == word_at(bytes@, j),
        decreases count - i,
    {
        let word: u32 = read_word(bytes, 4 * i);
        words.push(word);
        i = i + 1;
    }
    assert(words@ =~= packed(bytes@));
    words
}

} // verus!
