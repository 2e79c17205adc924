//! Hexadecimal notation of byte strings.

use crate::bindings::{parse_public_key, public_key_of, push_char};
use crate::node_var::NodePubkey;
use crate::text::{chars_of, digit_char};
use vstd::prelude::*;

verus! {

/// The lower-case character that writes the hexadecimal digit `n` (0 to 15).
pub open spec fn hex_digit(n: int) -> char {
    if n < 10 {
        digit_char(n)
    } else if n == 10 {
        'a'
    } else if n == 11 {
        'b'
    } else if n == 12 {
        'c'
    } else if n == 13 {
        'd'
    } else if n == 14 {
        'e'
    } else {
        'f'
    }
}

/// The value of a hexadecimal digit, written in either case.
pub open spec fn hex_value(c: char) -> Option<int> {
    if c == '0' {
        Some(0)
    } else if c == '1' {
        Some(1)
    } else if c == '2' {
        Some(2)
    } else if c == '3' {
        Some(3)
    } else if c == '4' {
        Some(4)
    } else if c == '5' {
        Some(5)
    } else if c == '6' {
        Some(6)
    } else if c == '7' {
        Some(7)
    } else if c == '8' {
        Some(8)
    } else if c == '9' {
        Some(9)
    } else if c == 'a' || c == 'A' {
        Some(10)
    } else if c == 'b' || c == 'B' {
        Some(11)
    } else if c == 'c' || c == 'C' {
        Some(12)
    } else if c == 'd' || c == 'D' {
        Some(13)
    } else if c == 'e' || c == 'E' {
        Some(14)
    } else if c == 'f' || c == 'F' {
        Some(15)
    } else {
        None
    }
}

/// Lower-case hexadecimal notation of `bytes`: two digits per byte, the high
/// half first.
pub open spec fn hex_of(bytes: Seq<u8>) -> Seq<char> {
    Seq::new(
        2 * bytes.len(),
        |i: int|
            if i % 2 == 0 {
                hex_digit(bytes[i / 2] as int / 16)
            } else {
                hex_digit(bytes[i / 2] as int % 16)
            },
    )
}

/// Whether `s` writes whole bytes in hexadecimal: an even number of
/// characters, each a hexadecimal digit.
pub open spec fn is_hex(s: Seq<char>) -> bool {
    s.len() % 2 == 0 && forall|i: int| 0 <= i < s.len() ==> (#[trigger] hex_value(s[i])) is Some
}

/// The bytes that the hexadecimal text `s` writes.
pub open spec fn bytes_of_hex(s: Seq<char>) -> Seq<u8> {
    Seq::new(
        s.len() / 2,
        |i: int| (hex_value(s[2 * i]).unwrap_or(0) * 16 + hex_value(s[2 * i + 1]).unwrap_or(0)) as u8,
    )
}

/// The bytes that `s` writes, if it is hexadecimal text.
pub open spec fn decoded(s: Seq<char>) -> Option<Seq<u8>> {
    if is_hex(s) {
        Some(bytes_of_hex(s))
    } else {
        None
    }
}

fn nibble_char(n: u8) -> (c: char)
    requires
        n < 16,
    ensures
        c == hex_digit(n as int),
{
    if n == 0 {
        '0'
    } else if n == 1 {
        '1'
    } else if n == 2 {
        '2'
    } else if n == 3 {
        '3'
    } else if n == 4 {
        '4'
    } else if n == 5 {
        '5'
    } else if n == 6 {
        '6'
    } else if n == 7 {
        '7'
    } else if n == 8 {
        '8'
    } else if n == 9 {
        '9'
    } else if n == 10 {
        'a'
    } else if n == 11 {
        'b'
    } else if n == 12 {
        'c'
    } else if n == 13 {
        'd'
    } else if n == 14 {
        'e'
    } else {
        'f'
    }
}

fn nibble_of(c: char) -> (n: Option<u8>)
    ensures
        match n {
            Some(v) => hex_value(c) == Some(v as int) && v < 16,
            None => hex_value(c) is None,
        },
{
    if c == '0' {
        Some(0)
    } else if c == '1' {
        Some(1)
    } else if c == '2' {
        Some(2)
    } else if c == '3' {
        Some(3)
    } else if c == '4' {
        Some(4)
    } else if c == '5' {
        Some(5)
    } else if c == '6' {
        Some(6)
    } else if c == '7' {
        Some(7)
    } else if c == '8' {
        Some(8)
    } else if c == '9' {
        Some(9)
    } else if c == 'a' || c == 'A' {
        Some(10)
    } else if c == 'b' || c == 'B' {
        Some(11)
    } else if c == 'c' || c == 'C' {
        Some(12)
    } else if c == 'd' || c == 'D' {
        Some(13)
    } else if c == 'e' || c == 'E' {
        Some(14)
    } else if c == 'f' || c == 'F' {
        Some(15)
    } else {
        None
    }
}

/// Writes `value` in lower-case hexadecimal.
pub fn hex_str(value: &[u8]) -> (res: String)
    ensures
        res@ == hex_of(value@),
{
    let mut res = String::new();
    let mut i: usize = 0;
    while i < value.len()
        invariant
            i <= value.len(),
            res@.len() == 2 * i,
            forall|k: int| 0 <= k < 2 * i ==> res@[k] == #[trigger] hex_of(value@)[k],
        decreases value.len() - i,
    {
        let b: u8 = value[i];
        push_char(&mut res, nibble_char(b / 16));
        push_char(&mut res, nibble_char(b % 16));
        i = i + 1;
    }
    assert(res@ =~= hex_of(value@));
    res
}

/// Reads hexadecimal text into bytes. `None` when the text has an odd number
/// of characters or a character that is no hexadecimal digit.
pub fn to_vec(hex: &str) -> (out: Option<Vec<u8>>)
    ensures
        match out {
            Some(v) => decoded(hex@) == Some(v@),
            None => decoded(hex@) is None,
        },
{
    let chars = chars_of(hex);
    if chars.len() % 2 != 0 {
        return None;
    }
    let mut out: Vec<u8> = Vec::new();
    let mut i: usize = 0;
    while i < chars.len()
        invariant
            i <= chars.len(),
            i % 2 == 0,
            chars.len() % 2 == 0,
            chars@ == hex@,
            out@.len() == i / 2,
            forall|k: int| 0 <= k < i ==> (#[trigger] hex_value(hex@[k])) is Some,
            forall|k: int| 0 <= k < i / 2 ==> out@[k] == #[trigger] bytes_of_hex(hex@)[k],
        decreases chars.len() - i,
    {
        let hi = nibble_of(chars[i]);
        let lo = nibble_of(chars[i + 1]);
        match (hi, lo) {
            (Some(h), Some(l)) => {
                out.push(h * 16 + l);
            },
            _ => {
                return None;
            },
        }
        i = i + 2;
    }
    assert(out@ =~= bytes_of_hex(hex@));
    Some(out)
}

/// The node key that the text `hex` writes: 33 bytes in hexadecimal that are
/// a point of the curve.
pub open spec fn compressed_pubkey(hex: Seq<char>) -> Option<NodePubkey> {
    match decoded(hex) {
        Some(bytes) => if bytes.len() == 33 {
            public_key_of(bytes)
        } else {
            None
        },
        None => None,
    }
}

/// Reads a node's public key from 66 hexadecimal characters.
pub fn to_compressed_pubkey(hex: &str) -> (key: Option<NodePubkey>)
    ensures
        key == compressed_pubkey(hex@),
{
    match to_vec(hex) {
        Some(bytes) => {
            if bytes.len() == 33 {
                parse_public_key(bytes.as_slice())
            } else {
                None
            }
        },
        None => None,
    }
}

/// Reading back what `hex_of` wrote gives the bytes again.
pub proof fn law_hex_round_trip(bytes: Seq<u8>)
    ensures
        decoded(hex_of(bytes)) == Some(bytes),
{
    let s = hex_of(bytes);
    assert forall|i: int| 0 <= i < s.len() implies (#[trigger] hex_value(s[i])) is Some by {
        lemma_hex_digit_value(bytes[i / 2] as int / 16);
        lemma_hex_digit_value(bytes[i / 2] as int % 16);
    }
    assert(is_hex(s));
    assert forall|i: int| 0 <= i < bytes.len() implies bytes_of_hex(s)[i] == bytes[i] by {
        lemma_hex_digit_value(bytes[i] as int / 16);
        lemma_hex_digit_value(bytes[i] as int % 16);
        assert(s[2 * i] == hex_digit(bytes[i] as int / 16));
        assert(s[2 * i + 1] == hex_digit(bytes[i] as int % 16));
    }
    assert(bytes_of_hex(s) =~= bytes);
}

/// A hexadecimal digit reads back as the value it was written from.
pub proof fn lemma_hex_digit_value(n: int)
    requires
        0 <= n < 16,
    ensures
        hex_value(hex_digit(n)) == Some(n),
{
}

} // verus!
