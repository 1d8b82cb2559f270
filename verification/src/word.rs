//! Arithmetic on 32-bit words: addition modulo 2^32 and left rotation.
use vstd::prelude::*;

verus! {

/// The sum of `x` and `y` modulo 2^32: the sum itself where it fits 32
/// bits, and otherwise the sum less 2^32.
pub open spec fn add32(x: u32, y: u32) -> u32 {
    if x + y < 0x1_0000_0000 {
        (x + y) as u32
    } else {
        (x + y - 0x1_0000_0000) as u32
    }
}

/// `x` rotated left by `n` bit positions. Rotation by a multiple of 32
/// leaves the word unchanged, and only `n % 32` matters.
pub open spec fn rotl32(x: u32, n: u32) -> u32 {
    let k = n % 32;
    if k == 0 {
        x
    } else {
        (x << k) | (x >> ((32 - k) as u32))
    }
}

/// Rotates `x` left by `n` bit positions.
pub fn rotate_left(x: u32, n: u32) -> (r: u32)
    ensures
        r == rotl32(x, n),
{
    let k: u32 = n % 32;
    if k == 0 {
        x
    } else {
        (x << k) | (x >> (32 - k))
    }
}

/// `add32` is addition modulo 2^32.
pub proof fn lemma_add32_is_modular(x: u32, y: u32)
    ensures
        add32(x, y) == (x + y) % 0x1_0000_0000,
{
}

/// Rotating left by `n` and then by `32 - n` gives the word back: a rotation
/// loses no bit.
pub proof fn lemma_rotl32_inverse(x: u32, n: u32)
    requires
        0 < n < 32,
    ensures
        rotl32(rotl32(x, n), (32 - n) as u32) == x,
{
    let m: u32 = (32 - n) as u32;
    assert(n % 32 == n && m % 32 == m && 32 - m == n);
    let y: u32 = (x << n) | (x >> m);
    assert(((y << m) | (y >> n)) == x) by (bit_vector)
        requires
            0 < n < 32,
            m == 32 - n,
            y == (x << n) | (x >> m),
    ;
}

} // verus!
