//! Parsing of operator-supplied hexadecimal command strings.

use vstd::prelude::*;

use crate::Error;

verus! {

/// `c` is an ASCII hexadecimal digit.
pub open spec fn is_hex_digit(c: u8) -> bool {
    (0x30 <= c <= 0x39) || (0x61 <= c <= 0x66) || (0x41 <= c <= 0x46)
}

/// The value of the hexadecimal digit `c`.
pub open spec fn hex_digit_val(c: u8) -> u8
    recommends
        is_hex_digit(c),
{
    if 0x30 <= c <= 0x39 {
        (c - 0x30) as u8
    } else if 0x61 <= c <= 0x66 {
        (c - 0x61 + 10) as u8
    } else {
        (c - 0x41 + 10) as u8
    }
}

/// `s` is a well-formed hexadecimal string: an even number of digits.
pub open spec fn valid_hex(s: Seq<u8>) -> bool {
    s.len() % 2 == 0 && forall|i: int| 0 <= i < s.len() ==> is_hex_digit(#[trigger] s[i])
}

/// The byte named by the digit pair `(hi, lo)`.
pub open spec fn hex_byte(hi: u8, lo: u8) -> u8 {
    (hex_digit_val(hi) * 16 + hex_digit_val(lo)) as u8
}

/// The bytes a well-formed hexadecimal string denotes, digit pair by
/// digit pair.
pub open spec fn hex_bytes(s: Seq<u8>) -> Seq<u8> {
    Seq::new(s.len() / 2, |i: int| hex_byte(s[2 * i], s[2 * i + 1]))
}

/// The value of one digit, or `None` for any other byte.
fn hex_val(c: u8) -> (r: Option<u8>)
    ensures
        is_hex_digit(c) ==> r == Some(hex_digit_val(c)),
        !is_hex_digit(c) ==> r is None,
{
    if c >= 0x30 && c <= 0x39 {
        Some(c - 0x30)
    } else if c >= 0x61 && c <= 0x66 {
        Some(c - 0x61 + 10)
    } else if c >= 0x41 && c <= 0x46 {
        Some(c - 0x41 + 10)
    } else {
        None
    }
}

/// Parses a hexadecimal command string into its bytes.
///
/// Exactly the well-formed strings parse: an odd length or any byte that
/// is not a hexadecimal digit is an `InvalidHex` error.
pub fn parse_hex(s: &Vec<u8>) -> (r: Result<Vec<u8>, Error>)
    ensures
        valid_hex(s@) ==> (r matches Ok(v) && v@ == hex_bytes(s@)),
        !valid_hex(s@) ==> r == Err::<Vec<u8>, Error>(Error::InvalidHex),
{
    if s.len() % 2 != 0 {
        return Err(Error::InvalidHex);
    }
    let mut out: Vec<u8> = Vec::new();
    let mut i: usize = 0;
    assert(s.len() == s@.len());
    while i < s.len()
        invariant
            s@.len() % 2 == 0,
            i % 2 == 0,
            i <= s@.len(),
            s@.len() <= usize::MAX,
            forall|k: int| 0 <= k < i ==> is_hex_digit(#[trigger] s@[k]),
            out@.len() == i / 2,
            forall|k: int|
                0 <= k < out@.len() ==> out@[k] == hex_byte(s@[2 * k], s@[2 * k + 1]),
        decreases s@.len() - i,
    {
        let hi = match hex_val(s[i]) {
            Some(v) => v,
            None => {
                assert(!valid_hex(s@)) by {
                    assert(!is_hex_digit(s@[i as int]));
                }
                return Err(Error::InvalidHex);
            },
        };
        let lo = match hex_val(s[i + 1]) {
            Some(v) => v,
            None => {
                assert(!valid_hex(s@)) by {
                    assert(!is_hex_digit(s@[i + 1]));
                }
                return Err(Error::InvalidHex);
            },
        };
        assert(hi <= 15 && lo <= 15);
        out.push(hi * 16 + lo);
        i = i + 2;
    }
    proof {
        assert(valid_hex(s@));
        assert(out@ =~= hex_bytes(s@));
    }
    Ok(out)
}

} // verus!
