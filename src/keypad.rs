use vstd::prelude::*;

verus! {

/// The hexadecimal key that a keyboard character stands for, on the usual
/// 4 x 4 layout `1234 / qwer / asdf / zxcv`.
pub open spec fn key_of(c: char) -> Option<u8> {
    if c == '1' {
        Some(0x1u8)
    } else if c == '2' {
        Some(0x2u8)
    } else if c == '3' {
        Some(0x3u8)
    } else if c == '4' {
        Some(0xcu8)
    } else if c == 'q' {
        Some(0x4u8)
    } else if c == 'w' {
        Some(0x5u8)
    } else if c == 'e' {
        Some(0x6u8)
    } else if c == 'r' {
        Some(0xdu8)
    } else if c == 'a' {
        Some(0x7u8)
    } else if c == 's' {
        Some(0x8u8)
    } else if c == 'd' {
        Some(0x9u8)
    } else if c == 'f' {
        Some(0xeu8)
    } else if c == 'z' {
        Some(0xau8)
    } else if c == 'x' {
        Some(0x0u8)
    } else if c == 'c' {
        Some(0xbu8)
    } else if c == 'v' {
        Some(0xfu8)
    } else {
        None
    }
}

/// Maps a keyboard character to its hexadecimal key; `None` for any other character.
pub fn key_code(c: char) -> (r: Option<u8>)
    ensures
        r == key_of(c),
        r matches Some(k) ==> k < 16,
{
    match c {
        '1' => Some(0x1),
        '2' => Some(0x2),
        '3' => Some(0x3),
        '4' => Some(0xc),
        'q' => Some(0x4),
        'w' => Some(0x5),
        'e' => Some(0x6),
        'r' => Some(0xd),
        'a' => Some(0x7),
        's' => Some(0x8),
        'd' => Some(0x9),
        'f' => Some(0xe),
        'z' => Some(0xa),
        'x' => Some(0x0),
        'c' => Some(0xb),
        'v' => Some(0xf),
        _ => None,
    }
}

} // verus!
