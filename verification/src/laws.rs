//! What holds of every message: the shape of the padding, the size of a
//! digest and of its rendering, and that a digest depends on the bytes of
//! the message alone.
use vstd::prelude::*;

use crate::endian::{
    le_bytes, le_value, lemma_le_bytes_len, lemma_le_value_of_le_bytes, pow256,
};
use crate::hex::{hex_encoded, is_lower_hex, lemma_hex_encoded_shape};
use crate::model::{
    absorbed, bit_length, block_at, digest_of_words, md5, mix, packed, padded, word_index,
    zero_count,
};
use crate::state::lemma_state_bytes_len;

verus! {

/// The number of zero bytes in the padding is the least that brings the
/// length, the `0x80` marker included, to 56 modulo 64. It is at most 63.
pub proof fn lemma_zero_count_least(len: nat, k: nat)
    ensures
        zero_count(len) < 64,
        (len + 1 + zero_count(len)) % 64 == 56,
        (len + 1 + k) % 64 == 56 ==> zero_count(len) <= k,
{
}

/// The length field counts bits: eight times the length in bytes, as long
/// as the message is shorter than 2^61 bytes. Beyond that the count wraps
/// round modulo 2^64, so that two lengths 2^61 bytes apart have the same
/// length field.
pub proof fn lemma_bit_length_wraps(len: nat)
    ensures
        bit_length(len) < 0x1_0000_0000_0000_0000,
        len < 0x2000_0000_0000_0000 ==> bit_length(len) == 8 * len,
        bit_length(len + 0x2000_0000_0000_0000) == bit_length(len),
{
}

/// A padded message is the message, then `0x80`, then zero bytes, then the
/// bit length in eight bytes; its length is a positive multiple of 64.
pub proof fn lemma_padded_shape(message: Seq<u8>)
    ensures
        padded(message).len() == message.len() + 1 + zero_count(message.len()) + 8,
        padded(message).len() % 64 == 0,
        padded(message).len() > message.len(),
        padded(message).subrange(0, message.len() as int) == message,
        padded(message)[message.len() as int] == 0x80,
        forall|i: int|
            message.len() < i < padded(message).len() - 8 ==> #[trigger] padded(message)[i] == 0,
        padded(message).subrange(padded(message).len() - 8, padded(message).len() as int)
            == le_bytes(bit_length(message.len()), 8),
{
    let len = message.len();
    let field = le_bytes(bit_length(len), 8);
    let all = padded(message);
    lemma_le_bytes_len(bit_length(len), 8);
    assert(all.len() == len + 1 + zero_count(len) + 8);
    assert(all.subrange(0, len as int) =~= message);
    assert(all.subrange(all.len() - 8, all.len() as int) =~= field);
}

/// The padding adds between 9 and 72 bytes: a message whose length modulo
/// 64 is at most 55 is padded to the end of its last block, any other to
/// the end of one block more.
pub proof fn lemma_padded_blocks(message: Seq<u8>)
    ensures
        message.len() % 64 < 56 ==> padded(message).len() == 64 * (message.len() / 64) + 64,
        message.len() % 64 >= 56 ==> padded(message).len() == 64 * (message.len() / 64) + 128,
        message.len() + 9 <= padded(message).len() <= message.len() + 72,
{
    lemma_padded_shape(message);
}

/// No two messages have the same padded form.
pub proof fn lemma_padding_injective(first: Seq<u8>, second: Seq<u8>)
    requires
        padded(first) == padded(second),
    ensures
        first == second,
{
    let all = padded(first);
    lemma_padded_shape(first);
    lemma_padded_shape(second);
    let field = all.subrange(all.len() - 8, all.len() as int);
    assert(field == le_bytes(bit_length(first.len()), 8));
    assert(field == le_bytes(bit_length(second.len()), 8));
    lemma_le_value_of_le_bytes(bit_length(first.len()), 8);
    lemma_le_value_of_le_bytes(bit_length(second.len()), 8);
    assert(pow256(8) == 0x1_0000_0000_0000_0000) by {
        reveal_with_fuel(pow256, 9);
    }
    assert(le_value(field) == bit_length(first.len()));
    assert(le_value(field) == bit_length(second.len()));
    // The lengths differ by less than 64 and agree modulo 2^61.
    assert(first.len() == second.len());
    assert(first == all.subrange(0, first.len() as int));
}

/// A padded message is read as whole blocks of 16 words: no byte of it is
/// left out of a word and no word out of a block.
pub proof fn lemma_padded_words(message: Seq<u8>)
    ensures
        4 * packed(padded(message)).len() == padded(message).len(),
        packed(padded(message)).len() % 16 == 0,
        packed(padded(message)).len() >= 16,
{
    lemma_padded_shape(message);
}

/// Each group of sixteen steps adds every word of the block exactly once:
/// the word indices lie in the block, and two different steps of one group
/// never add the same word.
pub proof fn lemma_word_index_permutes(i: int, j: int)
    requires
        0 <= i < 64,
        0 <= j < 64,
        i / 16 == j / 16,
    ensures
        0 <= word_index(i) < 16,
        word_index(i) == word_index(j) ==> i == j,
{
}

/// What the non-linear function does bit by bit. In the first sixteen steps
/// it selects: where `b` has a one the result has the bit of `c`, elsewhere
/// that of `d`. In the next sixteen `d` selects between `b` and `c`. In the
/// third sixteen the result is the bitwise sum of the three words, so it
/// changes wherever one of them alone changes. In the last sixteen it is
/// the complement of `c` where `b` has a one or `d` a zero, and `c`
/// elsewhere.
pub proof fn lemma_mix_bitwise(i: int, b: u32, c: u32, d: u32)
    requires
        0 <= i < 64,
    ensures
        i < 16 ==> mix(i, b, c, d) & b == c & b && mix(i, b, c, d) & !b == d & !b,
        16 <= i < 32 ==> mix(i, b, c, d) & d == b & d && mix(i, b, c, d) & !d == c & !d,
        32 <= i < 48 ==> mix(i, b, c, d) ^ d == b ^ c,
        48 <= i ==> mix(i, b, c, d) & (b | !d) == !c & (b | !d) && mix(i, b, c, d) & !(b | !d)
            == c & !(b | !d),
{
    assert(((b & c) | (!b & d)) & b == c & b && ((b & c) | (!b & d)) & !b == d & !b)
        by (bit_vector);
    assert(((d & b) | (!d & c)) & d == b & d && ((d & b) | (!d & c)) & !d == c & !d)
        by (bit_vector);
    assert((b ^ c ^ d) ^ d == b ^ c) by (bit_vector);
    assert((c ^ (b | !d)) & (b | !d) == !c & (b | !d) && (c ^ (b | !d)) & !(b | !d) == c & !(b
        | !d)) by (bit_vector);
}

/// The state after `n` blocks depends on the first `16 n` words alone.
pub proof fn lemma_absorbed_prefix(first: Seq<u32>, second: Seq<u32>, n: nat)
    requires
        16 * n <= first.len(),
        16 * n <= second.len(),
        first.subrange(0, 16 * n as int) == second.subrange(0, 16 * n as int),
    ensures
        absorbed(first, n) == absorbed(second, n),
    decreases n,
{
    if n > 0 {
        let m = (n - 1) as nat;
        let hi: int = 16 * n as int;
        let lo: int = 16 * m as int;
        let shared = first.subrange(0, hi);
        assert(first.subrange(0, lo) =~= shared.subrange(0, lo));
        assert(second.subrange(0, lo) =~= shared.subrange(0, lo));
        lemma_absorbed_prefix(first, second, m);
        assert(block_at(first, m as int) =~= shared.subrange(lo, hi));
        assert(block_at(second, m as int) =~= shared.subrange(lo, hi));
    }
}

/// Words after the last whole block of 16 do not enter the digest.
pub proof fn lemma_digest_ignores_partial_block(words: Seq<u32>, extra: Seq<u32>)
    requires
        words.len() % 16 == 0,
        extra.len() < 16,
    ensures
        digest_of_words(words + extra) == digest_of_words(words),
{
    let n = words.len() / 16;
    let longer = words + extra;
    assert(longer.len() / 16 == n);
    assert(longer.subrange(0, 16 * n as int) =~= words.subrange(0, 16 * n as int));
    lemma_absorbed_prefix(longer, words, n);
}

/// Every digest has 16 bytes, and its rendering has 32 characters, each a
/// decimal digit or a letter from `a` to `f`.
pub proof fn lemma_digest_size(message: Seq<u8>)
    ensures
        md5(message).len() == 16,
        hex_encoded(md5(message)).len() == 32,
        forall|i: int| 0 <= i < 32 ==> is_lower_hex(#[trigger] hex_encoded(md5(message))[i]),
{
    lemma_digest_of_words_size(packed(padded(message)));
    lemma_hex_encoded_shape(md5(message));
}

/// The digest of a word sequence has 16 bytes, whatever the number of
/// words.
pub proof fn lemma_digest_of_words_size(words: Seq<u32>)
    ensures
        digest_of_words(words).len() == 16,
{
    lemma_state_bytes_len(absorbed(words, words.len() / 16));
}

/// A digest depends on the bytes of the message and on nothing else: two
/// computations on the same bytes give the same digest and the same
/// rendering, whenever and wherever they run.
pub proof fn lemma_digest_deterministic(
    first: Seq<u8>,
    first_digest: Seq<u8>,
    second: Seq<u8>,
    second_digest: Seq<u8>,
)
    requires
        first =~= second,
        first_digest == md5(first),
        second_digest == md5(second),
    ensures
        first_digest == second_digest,
        hex_encoded(first_digest) == hex_encoded(second_digest),
{
}

} // verus!
