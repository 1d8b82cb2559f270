//! Lowercase hexadecimal rendering of bytes.
use vstd::prelude::*;

verus! {

/// The lowercase hexadecimal digit for a value from 0 to 15.
pub open spec fn hex_digit(n: int) -> char {
    if n < 10 {
        ('0' as int + n) as char
    } else {
        ('a' as int + n - 10) as char
    }
}

/// The hexadecimal rendering of a byte sequence: two digits for each byte,
/// the high four bits first, with nothing before, between or after them.
pub open spec fn hex_encoded(bytes: Seq<u8>) -> Seq<char> {
    Seq::new(
        2 * bytes.len(),
        |i: int|
            if i % 2 == 0 {
                hex_digit(bytes[i / 2] as int / 16)
            } else {
                hex_digit(bytes[i / 2] as int % 16)
            },
    )
}

/// Whether `c` is one of `0` to `9` or `a` to `f`.
pub open spec fn is_lower_hex(c: char) -> bool {
    ('0' <= c && c <= '9') || ('a' <= c && c <= 'f')
}

/// The digit for a value from 0 to 15, as a string of one character.
fn digit_str(n: u8) -> (digit: &'static str)
    requires
        n < 16,
    ensures
        digit@ == seq![hex_digit(n as int)],
{
    proof {
        reveal_strlit("0");
        reveal_strlit("1");
        reveal_strlit("2");
        reveal_strlit("3");
        reveal_strlit("4");
        reveal_strlit("5");
        reveal_strlit("6");
        reveal_strlit("7");
        reveal_strlit("8");
        reveal_strlit("9");
        reveal_strlit("a");
        reveal_strlit("b");
        reveal_strlit("c");
        reveal_strlit("d");
        reveal_strlit("e");
        reveal_strlit("f");
    }
    let digit: &'static str = match n {
        0 => "0",
        1 => "1",
        2 => "2",
        3 => "3",
        4 => "4",
        5 => "5",
        6 => "6",
        7 => "7",
        8 => "8",
        9 => "9",
        10 => "a",
        11 => "b",
        12 => "c",
        13 => "d",
        14 => "e",
        _ => "f",
    };
    assert(digit@ =~= seq![hex_digit(n as int)]);
    digit
}

/// Renders bytes as lowercase hexadecimal digits.
pub fn to_hex(bytes: &[u8]) -> (hex: String)
    ensures
        hex@ == hex_encoded(bytes@),
{
    let mut hex: String = String::new();
    let mut i: usize = 0;
    assert(hex@ =~= hex_encoded(bytes@.take(0)));
    while i < bytes.len()
        invariant
            i <= bytes@.len(),
            hex@ == hex_encoded(bytes@.take(i as int)),
        decreases bytes@.len() - i,
    {
        let byte: u8 = bytes[i];
        let ghost before = hex@;
        hex.append(digit_str(byte / 16));
        hex.append(digit_str(byte % 16));
        assert(hex@ =~= hex_encoded(bytes@.take(i + 1))) by {
            let done = bytes@.take(i as int);
            let next = bytes@.take(i + 1);
            assert(hex@ == before + seq![hex_digit(byte as int / 16)] + seq![
                hex_digit(byte as int % 16),
            ]);
            assert(forall|j: int| 0 <= j < i ==> done[j] == next[j]);
            assert(next[i as int] == byte);
        }
        i = i + 1;
    }
    assert(bytes@.take(i as int) =~= bytes@);
    hex
}

/// A rendering has two characters for each byte, and each of them is a
/// decimal digit or a letter from `a` to `f`: no upper case, no prefix and
/// no separator.
pub proof fn lemma_hex_encoded_shape(bytes: Seq<u8>)
    ensures
        hex_encoded(bytes).len() == 2 * bytes.len(),
        forall|i: int| 0 <= i < 2 * bytes.len() ==> is_lower_hex(#[trigger] hex_encoded(bytes)[i]),
{
    assert forall|i: int| 0 <= i < 2 * bytes.len() implies is_lower_hex(
        #[trigger] hex_encoded(bytes)[i],
    ) by {
        let byte = bytes[i / 2] as int;
        lemma_hex_digit_is_lower_hex(byte / 16);
        lemma_hex_digit_is_lower_hex(byte % 16);
    }
}

/// Each of the sixteen digits is a decimal digit or a letter from `a` to
/// `f`.
pub proof fn lemma_hex_digit_is_lower_hex(n: int)
    requires
        0 <= n < 16,
    ensures
        is_lower_hex(hex_digit(n)),
{
}

} // verus!
