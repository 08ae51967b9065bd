//! Hexadecimal digest strings: well-formedness, rendering of raw digest
//! bytes, and the case-insensitive comparison the verifier uses.

use vstd::prelude::*;

verus! {

/// True of the ASCII code of a hexadecimal digit.
pub open spec fn is_hex_digit(b: u8) -> bool {
    (48 <= b && b <= 57) || (97 <= b && b <= 102) || (65 <= b && b <= 70)
}

/// Maps the ASCII code of an upper-case hexadecimal digit to its lower-case
/// form and leaves every other byte unchanged.
pub open spec fn lower_hex_byte(b: u8) -> u8 {
    if 65 <= b && b <= 70 {
        (b + 32) as u8
    } else {
        b
    }
}

/// Case-insensitive equality of two digest strings, byte for byte.
pub open spec fn hex_eq_ci(a: Seq<u8>, b: Seq<u8>) -> bool {
    a.len() == b.len() && (forall|i: int|
        0 <= i < a.len() ==> lower_hex_byte(a[i]) == lower_hex_byte(b[i]))
}

/// A well-formed digest string for the fixed algorithm: exactly 64
/// hexadecimal digits.
pub open spec fn is_hex_digest(s: Seq<u8>) -> bool {
    s.len() == 64 && (forall|i: int| 0 <= i < s.len() ==> is_hex_digit(s[i]))
}

/// The ASCII code of the lower-case hexadecimal digit of a value below 16.
pub open spec fn hex_digit(v: u8) -> u8 {
    if v < 10 {
        (48 + v) as u8
    } else {
        (87 + v) as u8
    }
}

/// The lower-case hexadecimal rendering of a byte string: two digits per
/// byte, high nibble first.
pub open spec fn hex_of(bytes: Seq<u8>) -> Seq<u8> {
    Seq::new(
        2 * bytes.len(),
        |i: int|
            if i % 2 == 0 {
                hex_digit(bytes[i / 2] / 16)
            } else {
                hex_digit(bytes[i / 2] % 16)
            },
    )
}

fn lower_byte(b: u8) -> (r: u8)
    ensures
        r == lower_hex_byte(b),
{
    if 65 <= b && b <= 70 {
        b + 32
    } else {
        b
    }
}

/// Whether two digest strings are equal up to hexadecimal letter case.
pub fn hex_matches_ci(a: &[u8], b: &[u8]) -> (r: bool)
    ensures
        r == hex_eq_ci(a@, b@),
{
    if a.len() != b.len() {
        return false;
    }
    let mut i: usize = 0;
    while i < a.len()
        invariant
            a@.len() == b@.len(),
            i <= a@.len(),
            forall|j: int| 0 <= j < i ==> lower_hex_byte(a@[j]) == lower_hex_byte(b@[j]),
        decreases a@.len() - i,
    {
        let x = lower_byte(a[i]);
        let y = lower_byte(b[i]);
        if x != y {
            proof {
                assert(lower_hex_byte(a@[i as int]) != lower_hex_byte(b@[i as int]));
            }
            return false;
        }
        i += 1;
    }
    true
}

/// Renders raw digest bytes as a lower-case hexadecimal string.
pub fn hex_encode(bytes: &[u8]) -> (r: Vec<u8>)
    ensures
        r@ == hex_of(bytes@),
{
    let mut r: Vec<u8> = Vec::new();
    let mut i: usize = 0;
    while i < bytes.len()
        invariant
            i <= bytes@.len(),
            r@ == hex_of(bytes@.subrange(0, i as int)),
        decreases bytes@.len() - i,
    {
        let b = bytes[i];
        r.push(hex_digit_of(b / 16));
        r.push(hex_digit_of(b % 16));
        proof {
            assert(r@ =~= hex_of(bytes@.subrange(0, i + 1 as int)));
        }
        i += 1;
    }
    proof {
        assert(bytes@.subrange(0, bytes@.len() as int) =~= bytes@);
    }
    r
}

fn hex_digit_of(v: u8) -> (r: u8)
    requires
        v < 16,
    ensures
        r == hex_digit(v),
{
    if v < 10 {
        48 + v
    } else {
        87 + v
    }
}

} // verus!
