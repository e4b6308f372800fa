//! Hexadecimal text: which texts are hex, and what bytes they stand for.

use vstd::prelude::*;
use vstd::string::StringSliceAdditionalSpecFns;

verus! {

/// The value of one hex digit given as an ASCII byte, in either case.
pub open spec fn digit_value(b: u8) -> Option<u8> {
    if 0x30 <= b <= 0x39 {
        Some((b - 0x30) as u8)
    } else if 0x61 <= b <= 0x66 {
        Some((b - 0x61 + 10) as u8)
    } else if 0x41 <= b <= 0x46 {
        Some((b - 0x41 + 10) as u8)
    } else {
        None
    }
}

/// Hex text has an even number of bytes, each of them a hex digit.
pub open spec fn is_hex(text: Seq<u8>) -> bool {
    &&& text.len() % 2 == 0
    &&& forall|i: int| 0 <= i < text.len() ==> (#[trigger] digit_value(text[i])).is_some()
}

/// The byte that the two digits at positions `2 * i` and `2 * i + 1` spell.
pub open spec fn byte_at(text: Seq<u8>, i: int) -> u8 {
    (16 * digit_value(text[2 * i]).unwrap() + digit_value(text[2 * i + 1]).unwrap()) as u8
}

/// The bytes that hex text spells, two digits to a byte, high digit first.
pub open spec fn decoded(text: Seq<u8>) -> Seq<u8> {
    Seq::new((text.len() / 2) as nat, |i: int| byte_at(text, i))
}

/// The value of one hex digit, or `None` for any other byte.
pub fn digit(b: u8) -> (value: Option<u8>)
    ensures
        value == digit_value(b),
        value matches Some(d) ==> d < 16,
{
    if 0x30 <= b && b <= 0x39 {
        Some(b - 0x30)
    } else if 0x61 <= b && b <= 0x66 {
        Some(b - 0x61 + 10)
    } else if 0x41 <= b && b <= 0x46 {
        Some(b - 0x41 + 10)
    } else {
        None
    }
}

/// Decodes hex text into bytes. Text of odd length, or with a byte that is no
/// hex digit, has no decoding.
pub fn decode(text: &str) -> (bytes: Option<Vec<u8>>)
    ensures
        bytes.is_some() == is_hex(text.spec_bytes()),
        bytes matches Some(v) ==> v@ == decoded(text.spec_bytes()),
{
    let raw = text.as_bytes();
    let n = raw.len();
    if n % 2 != 0 {
        return None;
    }
    let mut out: Vec<u8> = Vec::new();
    let mut i: usize = 0;
    while i < n / 2
        invariant
            raw@ == text.spec_bytes(),
            n == raw@.len(),
            n % 2 == 0,
            i <= n / 2,
            out@.len() == i,
            forall|j: int| 0 <= j < 2 * i ==> (#[trigger] digit_value(raw@[j])).is_some(),
            forall|j: int| 0 <= j < i ==> out@[j] == byte_at(raw@, j),
        decreases n / 2 - i,
    {
        let hi = digit(raw[2 * i]);
        let lo = digit(raw[2 * i + 1]);
        match (hi, lo) {
            (Some(h), Some(l)) => {
                out.push(16 * h + l);
            },
            _ => {
                return None;
            },
        }
        i = i + 1;
    }
    assert(out@ =~= decoded(raw@));
    Some(out)
}

} // verus!
