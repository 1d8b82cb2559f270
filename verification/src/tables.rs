//! The fixed data of MD5: the per-step rotation amounts, the per-step
//! additive constants and the initial chaining values.
//!
//! All three are plain numeric literals. Nothing is computed at run time.
use vstd::prelude::*;

verus! {

/// Left-rotation amount of each step. Each group of sixteen steps cycles
/// through its own four amounts.
pub const S: [u32; 64] = [
    7, 12, 17, 22, 7, 12, 17, 22, 7, 12, 17, 22, 7, 12, 17, 22,
    5, 9, 14, 20, 5, 9, 14, 20, 5, 9, 14, 20, 5, 9, 14, 20,
    4, 11, 16, 23, 4, 11, 16, 23, 4, 11, 16, 23, 4, 11, 16, 23,
    6, 10, 15, 21, 6, 10, 15, 21, 6, 10, 15, 21, 6, 10, 15, 21,
];

/// Additive constant of each step: entry `i` is the integer part of
/// `2^32 * |sin(i + 1)|`, with `i + 1` in radians.
pub const K: [u32; 64] = [
    0xd76aa478, 0xe8c7b756, 0x242070db, 0xc1bdceee,
    0xf57c0faf, 0x4787c62a, 0xa8304613, 0xfd469501,
    0x698098d8, 0x8b44f7af, 0xffff5bb1, 0x895cd7be,
    0x6b901122, 0xfd987193, 0xa679438e, 0x49b40821,
    0xf61e2562, 0xc040b340, 0x265e5a51, 0xe9b6c7aa,
    0xd62f105d, 0x02441453, 0xd8a1e681, 0xe7d3fbc8,
    0x21e1cde6, 0xc33707d6, 0xf4d50d87, 0x455a14ed,
    0xa9e3e905, 0xfcefa3f8, 0x676f02d9, 0x8d2a4c8a,
    0xfffa3942, 0x8771f681, 0x6d9d6122, 0xfde5380c,
    0xa4beea44, 0x4bdecfa9, 0xf6bb4b60, 0xbebfbc70,
    0x289b7ec6, 0xeaa127fa, 0xd4ef3085, 0x04881d05,
    0xd9d4d039, 0xe6db99e5, 0x1fa27cf8, 0xc4ac5665,
    0xf4292244, 0x432aff97, 0xab9423a7, 0xfc93a039,
    0x655b59c3, 0x8f0ccc92, 0xffeff47d, 0x85845dd1,
    0x6fa87e4f, 0xfe2ce6e0, 0xa3014314, 0x4e0811a1,
    0xf7537e82, 0xbd3af235, 0x2ad7d2bb, 0xeb86d391,
];

/// Initial value of the accumulator `a`.
pub const INIT_A: u32 = 0x67452301;

/// Initial value of the accumulator `b`.
pub const INIT_B: u32 = 0xefcdab89;

/// Initial value of the accumulator `c`.
pub const INIT_C: u32 = 0x98badcfe;

/// Initial value of the accumulator `d`.
pub const INIT_D: u32 = 0x10325476;

/// Every rotation amount is strictly between 0 and 32, so each step rotates
/// by a proper, non-trivial amount.
pub proof fn lemma_rotation_in_range(i: int)
    requires
        0 <= i < 64,
    ensures
        0 < S[i] < 32,
{
}

/// Within a group of sixteen steps the rotation amounts repeat with period
/// four.
pub proof fn lemma_rotation_period(i: int)
    requires
        0 <= i < 64,
    ensures
        S[i] == S[16 * (i / 16) + i % 4],
{
}

} // verus!
